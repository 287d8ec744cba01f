//! The quiet-hours window test on "HH:MM" texts.
use vstd::prelude::*;
use crate::config::QuietHours;

verus! {

/// Lexicographic order on texts from position `i` on, character by character.
pub open spec fn text_lt_from(a: Seq<char>, b: Seq<char>, i: int) -> bool
    decreases a.len() - i,
{
    if i < 0 || i >= a.len() {
        i >= 0 && i < b.len()
    } else if i >= b.len() {
        false
    } else if a[i] != b[i] {
        (a[i] as u32) < (b[i] as u32)
    } else {
        text_lt_from(a, b, i + 1)
    }
}

/// `a` comes strictly before `b` in lexicographic order.
pub open spec fn text_lt(a: Seq<char>, b: Seq<char>) -> bool {
    text_lt_from(a, b, 0)
}

/// Whether quiet hours are in force at clock time `now`: within
/// `start..=end`, or, for a window that wraps midnight, at or after `start` or
/// at or before `end`.
pub open spec fn quiet_active(qh: QuietHours, now: Seq<char>) -> bool {
    let (start, end) = (qh.start@, qh.end@);
    if !qh.enabled {
        false
    } else if text_lt(start, end) {
        !text_lt(now, start) && !text_lt(end, now)
    } else {
        !text_lt(now, start) || !text_lt(end, now)
    }
}

/// Compares two texts the way `<` orders strings.
pub fn text_less(a: &str, b: &str) -> (r: bool)
    ensures
        r == text_lt(a@, b@),
{
    let n = a.unicode_len();
    let m = b.unicode_len();
    let mut i: usize = 0;
    while i < n && i < m
        invariant
            n == a@.len(),
            m == b@.len(),
            0 <= i <= n,
            i <= m,
            text_lt(a@, b@) == text_lt_from(a@, b@, i as int),
        decreases n - i,
    {
        let x = a.get_char(i);
        let y = b.get_char(i);
        if x != y {
            return (x as u32) < (y as u32);
        }
        i = i + 1;
    }
    i == n && i < m
}

impl QuietHours {
    /// Whether the window is in force at clock time `now` ("HH:MM").
    pub fn is_active_at(&self, now: &str) -> (r: bool)
        ensures
            r == quiet_active(*self, now@),
    {
        if !self.enabled {
            return false;
        }
        let start = self.start.as_str();
        let end = self.end.as_str();
        if text_less(start, end) {
            !text_less(now, start) && !text_less(end, now)
        } else {
            !text_less(now, start) || !text_less(end, now)
        }
    }
}

} // verus!
