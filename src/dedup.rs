//! The process-lifetime cache of recently sent message fingerprints.
use vstd::prelude::*;

verus! {

/// How long, in seconds, a fingerprint suppresses a repeat.
pub const DEDUP_WINDOW: i64 = 300;

/// Entries at least this old, in seconds, are purged on insertion.
pub const RETENTION: i64 = 600;

/// One fingerprint and when it was last sent (Unix seconds).
pub struct CacheEntry {
    pub key: String,
    pub sent_at: i64,
}

/// Fingerprint to last-sent time, one entry per fingerprint.
pub struct DedupCache {
    entries: Vec<CacheEntry>,
}

/// The cache holds fingerprint `k` with last-sent time `t`.
pub open spec fn holds(s: Seq<CacheEntry>, k: Seq<char>, t: i64) -> bool {
    exists|i: int| 0 <= i < s.len() && #[trigger] s[i].key@ == k && s[i].sent_at == t
}

/// No fingerprint appears twice.
pub open spec fn distinct_keys(s: Seq<CacheEntry>) -> bool {
    forall|a: int, b: int| 0 <= a < b < s.len() ==> s[a].key@ != s[b].key@
}

/// A message with fingerprint `k` at time `now` repeats one sent less than the
/// dedup window earlier.
pub open spec fn blocks(s: Seq<CacheEntry>, k: Seq<char>, now: i64) -> bool {
    exists|i: int|
        0 <= i < s.len() && #[trigger] s[i].key@ == k && now - s[i].sent_at < DEDUP_WINDOW
}

/// `new` is `old` after sending `k` at `now`: `k` is recorded at `now`, and of
/// the other entries exactly those younger than the retention period remain.
pub open spec fn recorded(old: Seq<CacheEntry>, new: Seq<CacheEntry>, k: Seq<char>, now: i64) -> bool {
    &&& distinct_keys(new)
    &&& forall|k2: Seq<char>, t: i64|
        #![trigger holds(new, k2, t)]
        #![trigger holds(old, k2, t)]
        holds(new, k2, t) <==> ((k2 == k && t == now) || (holds(old, k2, t) && k2 != k && now - t
            < RETENTION))
}

impl DedupCache {
    pub closed spec fn entries(&self) -> Seq<CacheEntry> {
        self.entries@
    }

    pub closed spec fn wf(&self) -> bool {
        distinct_keys(self.entries@)
    }

    pub fn new() -> (r: Self)
        ensures
            r.wf(),
            r.entries().len() == 0,
    {
        DedupCache { entries: Vec::new() }
    }

    /// The number of fingerprints held.
    pub fn len(&self) -> (r: usize)
        ensures
            r == self.entries().len(),
    {
        self.entries.len()
    }

    /// Decides whether a message with fingerprint `key` is sent at time `now`.
    /// A repeat within the dedup window is refused and leaves the cache as it
    /// was; otherwise the fingerprint is recorded and stale entries are purged.
    pub fn should_send(&mut self, key: &str, now: i64) -> (r: bool)
        requires
            old(self).wf(),
        ensures
            final(self).wf(),
            r == !blocks(old(self).entries(), key@, now),
            !r ==> *final(self) == *old(self),
            r ==> recorded(old(self).entries(), final(self).entries(), key@, now),
    {
        let key_text = key.to_owned();
        let n = self.entries.len();
        let mut i: usize = 0;
        while i < n
            invariant
                n == self.entries@.len(),
                *self == *old(self),
                distinct_keys(self.entries@),
                i <= n,
                key_text@ == key@,
                forall|j: int|
                    0 <= j < i ==> !(#[trigger] self.entries@[j].key@ == key@ && now
                        - self.entries@[j].sent_at < DEDUP_WINDOW),
            decreases n - i,
        {
            let e = &self.entries[i];
            if e.key == key_text && (now as i128) - (e.sent_at as i128) < DEDUP_WINDOW as i128 {
                return false;
            }
            i = i + 1;
        }
        let ghost old_entries = self.entries@;
        let mut kept: Vec<CacheEntry> = Vec::new();
        kept.push(CacheEntry { key: key_text.clone(), sent_at: now });
        let mut i: usize = 0;
        while i < n
            invariant
                n == old_entries.len(),
                old_entries == self.entries@,
                distinct_keys(old_entries),
                key_text@ == key@,
                i <= n,
                kept@.len() >= 1,
                kept@[0].key@ == key@,
                kept@[0].sent_at == now,
                distinct_keys(kept@),
                forall|a: int|
                    1 <= a < kept@.len() ==> {
                        &&& (#[trigger] kept@[a]).key@ != key@
                        &&& now - kept@[a].sent_at < RETENTION
                        &&& exists|j: int|
                            0 <= j < i && #[trigger] old_entries[j].key@ == kept@[a].key@
                                && old_entries[j].sent_at == kept@[a].sent_at
                    },
                forall|j: int|
                    0 <= j < i && (#[trigger] old_entries[j]).key@ != key@ && now
                        - old_entries[j].sent_at < RETENTION ==> holds(
                        kept@,
                        old_entries[j].key@,
                        old_entries[j].sent_at,
                    ),
            decreases n - i,
        {
            let e = &self.entries[i];
            if !(e.key == key_text) && (now as i128) - (e.sent_at as i128) < RETENTION as i128 {
                let ghost before = kept@;
                kept.push(CacheEntry { key: e.key.clone(), sent_at: e.sent_at });
                proof {
                    let last = kept@.len() - 1;
                    assert(kept@[last].key@ == old_entries[i as int].key@);
                    assert(kept@[last].key@ != key@);
                    assert forall|a: int| 0 <= a < last implies kept@[a] == before[a] by {}
                    assert forall|a: int, b: int| 0 <= a < b < kept@.len() implies kept@[a].key@
                        != kept@[b].key@ by {
                        if b < last {
                            assert(before[a] == kept@[a] && before[b] == kept@[b]);
                        } else if a == 0 {
                            assert(before[0] == kept@[0]);
                        } else {
                            assert(before[a] == kept@[a]);
                            let j = choose|j: int|
                                0 <= j < i && #[trigger] old_entries[j].key@ == before[a].key@
                                    && old_entries[j].sent_at == before[a].sent_at;
                            assert(old_entries[j].key@ != old_entries[i as int].key@);
                        }
                    }
                    assert forall|j: int|
                        0 <= j < i + 1 && (#[trigger] old_entries[j]).key@ != key@ && now
                            - old_entries[j].sent_at < RETENTION implies holds(
                        kept@,
                        old_entries[j].key@,
                        old_entries[j].sent_at,
                    ) by {
                        if j == i {
                            assert(kept@[last].key@ == old_entries[j].key@);
                        } else {
                            let a = choose|a: int|
                                0 <= a < before.len() && #[trigger] before[a].key@
                                    == old_entries[j].key@ && before[a].sent_at
                                    == old_entries[j].sent_at;
                            assert(kept@[a] == before[a]);
                        }
                    }
                    assert forall|a: int| 1 <= a < kept@.len() implies {
                        &&& (#[trigger] kept@[a]).key@ != key@
                        &&& now - kept@[a].sent_at < RETENTION
                        &&& exists|j: int|
                            0 <= j < i + 1 && #[trigger] old_entries[j].key@ == kept@[a].key@
                                && old_entries[j].sent_at == kept@[a].sent_at
                    } by {
                        if a < last {
                            assert(before[a] == kept@[a]);
                            let j = choose|j: int|
                                0 <= j < i && #[trigger] old_entries[j].key@ == before[a].key@
                                    && old_entries[j].sent_at == before[a].sent_at;
                            assert(old_entries[j].key@ == kept@[a].key@);
                        } else {
                            assert(old_entries[i as int].key@ == kept@[a].key@);
                        }
                    }
                }
            }
            i = i + 1;
        }
        proof {
            let new = kept@;
            assert forall|k2: Seq<char>, t: i64|
                holds(new, k2, t) <==> ((k2 == key@ && t == now) || (holds(old_entries, k2, t) && k2
                    != key@ && now - t < RETENTION)) by {
                if holds(new, k2, t) {
                    let a = choose|a: int| 0 <= a < new.len() && #[trigger] new[a].key@ == k2 && new[a].sent_at == t;
                    if a >= 1 {
                        assert(new[a].key@ != key@);
                    }
                }
                if holds(old_entries, k2, t) && k2 != key@ && now - t < RETENTION {
                    let j = choose|j: int| 0 <= j < old_entries.len() && #[trigger] old_entries[j].key@ == k2 && old_entries[j].sent_at == t;
                    assert(old_entries[j].key@ != key@);
                }
                if k2 == key@ && t == now {
                    assert(new[0].key@ == k2);
                }
            }
        }
        self.entries = kept;
        true
    }
}

} // verus!
