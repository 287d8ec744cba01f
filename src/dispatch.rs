//! The dispatch engine: quiet hours, deduplication, channel selection, and the
//! card request for each selected, configured destination.
use vstd::prelude::*;
use crate::clock::{local_clock_hhmm, unix_seconds};
use crate::config::{texts, ChannelConfig, Config, QuietHours, Route, WechatServiceType};
use crate::dedup::{blocks, holds, recorded, CacheEntry, DedupCache, DEDUP_WINDOW, RETENTION};
use crate::notifiers::{
    FeishuNotifier, Notifier, TeamsNotifier, WebhookRequest, WechatNotifier,
    WechatService,
};
use crate::quiet::quiet_active;

verus! {

/// The destinations that can be named on a request.
#[derive(PartialEq, Eq, Structural, Clone, Copy)]
pub enum Channel {
    Teams,
    Feishu,
    Wechat,
}

/// The registry name of a destination.
pub open spec fn channel_name(c: Channel) -> Seq<char> {
    match c {
        Channel::Teams => "teams"@,
        Channel::Feishu => "feishu"@,
        Channel::Wechat => "wechat"@,
    }
}

impl Channel {
    pub fn name(&self) -> (r: String)
        ensures
            r@ == channel_name(*self),
    {
        match self {
            Channel::Teams => "teams".to_owned(),
            Channel::Feishu => "feishu".to_owned(),
            Channel::Wechat => "wechat".to_owned(),
        }
    }
}

/// A configured destination under its registry name.
pub struct RegisteredChannel {
    pub name: String,
    pub notifier: Notifier,
}

/// One card request addressed to a named destination.
pub struct Delivery {
    pub channel: String,
    pub request: WebhookRequest,
}

/// What a dispatch call decided.
pub enum DispatchPlan {
    /// Held back: quiet hours are in force.
    QuietHours,
    /// Held back: the same message was sent within the dedup window.
    Duplicate,
    /// The requests to post, one per selected, configured destination.
    Deliver(Vec<Delivery>),
}

/// Text that mentions everybody in the enterprise-chat markup.
pub open spec fn mention_all() -> Seq<char> {
    "\n<at user_id='all'></at>"@
}

/// The fixed palette: info, warning, critical, success; anything else is
/// shown as info.
pub open spec fn severity_color(level: Seq<char>) -> Seq<char> {
    if level == "warning"@ {
        "FFA500"@
    } else if level == "critical"@ {
        "DC3545"@
    } else if level == "success"@ {
        "28A745"@
    } else {
        "0078D4"@
    }
}

/// The message text as sent to destination `name`: a critical message to the
/// enterprise-chat destination mentions everybody.
pub open spec fn channel_content(name: Seq<char>, level: Seq<char>, content: Seq<char>) -> Seq<
    char,
> {
    if level == "critical"@ && name == "feishu"@ {
        content + mention_all()
    } else {
        content
    }
}

/// At most the first `n` characters of `s`.
pub open spec fn prefix(s: Seq<char>, n: nat) -> Seq<char> {
    if s.len() <= n {
        s
    } else {
        s.take(n as int)
    }
}

/// The dedup key: event type, title, and the first fifty characters of the
/// content, joined by ':'.
pub open spec fn fingerprint(event: Seq<char>, title: Seq<char>, content: Seq<char>) -> Seq<char> {
    event + ":"@ + title + ":"@ + prefix(content, 50)
}

/// Quiet hours hold a message back: not forced, not critical, and the window
/// is in force at `now`.
pub open spec fn quiet_suppresses(
    qh: QuietHours,
    level: Seq<char>,
    force: bool,
    now: Seq<char>,
) -> bool {
    !force && quiet_active(qh, now) && level != "critical"@
}

/// The channel names that routing row `i` or a later one gives `event`: those
/// of the first row for the event, or none.
pub open spec fn route_from(routes: Seq<Route>, event: Seq<char>, i: int) -> Seq<Seq<char>>
    decreases routes.len() - i,
{
    if i < 0 || i >= routes.len() {
        Seq::empty()
    } else if routes[i].event@ == event {
        texts(routes[i].channels@)
    } else {
        route_from(routes, event, i + 1)
    }
}

/// The channel names the routing table gives `event`.
pub open spec fn routed(routes: Seq<Route>, event: Seq<char>) -> Seq<Seq<char>> {
    route_from(routes, event, 0)
}

/// The registry names of a list of destinations.
pub open spec fn channel_names(cs: Seq<Channel>) -> Seq<Seq<char>> {
    cs.map_values(|c: Channel| channel_name(c))
}

/// The channel names a call selects: the override, verbatim, when there is one;
/// the routing table's otherwise.
pub open spec fn selected(routes: Seq<Route>, event: Seq<char>, over: Option<Vec<Channel>>) -> Seq<
    Seq<char>,
> {
    match over {
        Some(cs) => channel_names(cs@),
        None => routed(routes, event),
    }
}

/// A destination of this name is configured.
pub open spec fn registered(reg: Seq<RegisteredChannel>, name: Seq<char>) -> bool {
    exists|i: int| 0 <= i < reg.len() && #[trigger] reg[i].name@ == name
}

/// The destination registered under `name`.
pub open spec fn notifier_for(reg: Seq<RegisteredChannel>, name: Seq<char>) -> Notifier {
    reg[choose|i: int| 0 <= i < reg.len() && #[trigger] reg[i].name@ == name].notifier
}

/// Registry names are distinct.
pub open spec fn registry_wf(reg: Seq<RegisteredChannel>) -> bool {
    forall|a: int, b: int| 0 <= a < b < reg.len() ==> reg[a].name@ != reg[b].name@
}

/// The selected names that are configured, in order; the others are dropped.
pub open spec fn targets(reg: Seq<RegisteredChannel>, names: Seq<Seq<char>>) -> Seq<Seq<char>>
    decreases names.len(),
{
    if names.len() == 0 {
        Seq::empty()
    } else {
        let rest = targets(reg, names.drop_last());
        if registered(reg, names.last()) {
            rest.push(names.last())
        } else {
            rest
        }
    }
}

/// `ds` holds, for each configured name among `names` in order, the card
/// request of that destination for this message, with no actions.
pub open spec fn deliveries_ok(
    reg: Seq<RegisteredChannel>,
    names: Seq<Seq<char>>,
    title: Seq<char>,
    content: Seq<char>,
    level: Seq<char>,
    ds: Seq<Delivery>,
) -> bool {
    let ts = targets(reg, names);
    &&& ds.len() == ts.len()
    &&& forall|i: int|
        0 <= i < ds.len() ==> {
            &&& (#[trigger] ds[i]).channel@ == ts[i]
            &&& notifier_for(reg, ts[i]).card_ok(
                title,
                channel_content(ts[i], level, content),
                severity_color(level),
                Seq::empty(),
                ds[i].request,
            )
        }
}

/// The chat-ops destination is enabled with a webhook.
pub open spec fn teams_ready(c: ChannelConfig) -> bool {
    c.teams is Some && c.teams->0.enabled && c.teams->0.webhook@.len() > 0
}

/// The enterprise-chat destination is enabled with a webhook.
pub open spec fn feishu_ready(c: ChannelConfig) -> bool {
    c.feishu is Some && c.feishu->0.enabled && c.feishu->0.webhook@.len() > 0
}

/// The personal-push destination is enabled with a key.
pub open spec fn wechat_ready(c: ChannelConfig) -> bool {
    c.wechat is Some && c.wechat->0.enabled && c.wechat->0.key@.len() > 0
}

/// `reg` holds exactly the ready destinations of `c`, each built from its
/// configuration.
pub open spec fn registry_of(c: ChannelConfig, reg: Seq<RegisteredChannel>) -> bool {
    &&& registry_wf(reg)
    &&& forall|n: Seq<char>|
        #[trigger] registered(reg, n) ==> n == "teams"@ || n == "feishu"@ || n == "wechat"@
    &&& registered(reg, "teams"@) <==> teams_ready(c)
    &&& registered(reg, "feishu"@) <==> feishu_ready(c)
    &&& registered(reg, "wechat"@) <==> wechat_ready(c)
    &&& teams_ready(c) ==> (notifier_for(reg, "teams"@) matches Notifier::Teams(n)
        && n.webhook() == c.teams->0.webhook@)
    &&& feishu_ready(c) ==> (notifier_for(reg, "feishu"@) matches Notifier::Feishu(n)
        && n.webhook() == c.feishu->0.webhook@)
    &&& wechat_ready(c) ==> (notifier_for(reg, "wechat"@) matches Notifier::Wechat(n) && match n.service() {
        WechatService::ServerChan { key } => c.wechat->0.service == WechatServiceType::ServerChan
            && key@ == c.wechat->0.key@,
        WechatService::PushPlus { token } => c.wechat->0.service == WechatServiceType::PushPlus
            && token@ == c.wechat->0.key@,
    })
}

/// Whether two texts are equal.
fn same_text(a: &str, b: &str) -> (r: bool)
    ensures
        r == (a@ == b@),
{
    a.to_owned() == b.to_owned()
}

/// The palette colour of a severity level.
pub fn color_of(level: &str) -> (r: String)
    ensures
        r@ == severity_color(level@),
{
    if same_text(level, "warning") {
        "FFA500".to_owned()
    } else if same_text(level, "critical") {
        "DC3545".to_owned()
    } else if same_text(level, "success") {
        "28A745".to_owned()
    } else {
        "0078D4".to_owned()
    }
}

/// The dedup key of a message.
pub fn message_key(event_type: &str, title: &str, content: &str) -> (r: String)
    ensures
        r@ == fingerprint(event_type@, title@, content@),
{
    let n = content.unicode_len();
    let cut: usize = if n <= 50 { n } else { 50 };
    let head = content.substring_char(0, cut);
    assert(head@ =~= prefix(content@, 50));
    let mut key = event_type.to_owned();
    key.append(":");
    key.append(title);
    key.append(":");
    key.append(head);
    key
}

} // verus!

verus! {

/// If `i` names `name` in a registry of distinct names, that entry is the one
/// registered under `name`.
proof fn lemma_notifier_for(reg: Seq<RegisteredChannel>, name: Seq<char>, i: int)
    requires
        registry_wf(reg),
        0 <= i < reg.len(),
        reg[i].name@ == name,
    ensures
        registered(reg, name),
        notifier_for(reg, name) == reg[i].notifier,
{
    let c = choose|c: int| 0 <= c < reg.len() && #[trigger] reg[c].name@ == name;
    assert(reg[i].name@ == name);
    if c != i {
        if c < i {
            assert(reg[c].name@ != reg[i].name@);
        } else {
            assert(reg[i].name@ != reg[c].name@);
        }
    }
}

/// The index of the destination registered under `name`, if any.
fn lookup(reg: &Vec<RegisteredChannel>, name: &String) -> (r: Option<usize>)
    ensures
        r is Some <==> registered(reg@, name@),
        r matches Some(i) ==> i < reg@.len() && reg@[i as int].name@ == name@,
{
    let mut i: usize = 0;
    while i < reg.len()
        invariant
            i <= reg@.len(),
            forall|k: int| 0 <= k < i ==> (#[trigger] reg@[k]).name@ != name@,
        decreases reg.len() - i,
    {
        if reg[i].name == *name {
            return Some(i);
        }
        i = i + 1;
    }
    None
}

/// Holds the configuration, the registry of configured destinations built from
/// it, and the dedup cache of this process.
pub struct NotificationManager {
    config: Config,
    notifiers: Vec<RegisteredChannel>,
    message_cache: DedupCache,
}

impl NotificationManager {
    pub closed spec fn config(&self) -> Config {
        self.config
    }

    pub closed spec fn registry(&self) -> Seq<RegisteredChannel> {
        self.notifiers@
    }

    pub closed spec fn cache_entries(&self) -> Seq<CacheEntry> {
        self.message_cache.entries()
    }

    pub closed spec fn wf(&self) -> bool {
        registry_wf(self.notifiers@) && self.message_cache.wf()
    }

    /// Registers each destination that is enabled and has its webhook or key.
    pub fn new(config: Config) -> (r: Self)
        ensures
            r.wf(),
            r.config() == config,
            registry_of(config.channels, r.registry()),
            r.cache_entries().len() == 0,
    {
        proof {
            reveal_strlit("teams");
            reveal_strlit("feishu");
            reveal_strlit("wechat");
        }
        let mut reg: Vec<RegisteredChannel> = Vec::new();
        if let Some(t) = &config.channels.teams {
            if t.enabled && !t.webhook.as_str().is_empty() {
                reg.push(
                    RegisteredChannel {
                        name: "teams".to_owned(),
                        notifier: Notifier::Teams(TeamsNotifier::new(t.webhook.clone())),
                    },
                );
            }
        }
        let ghost after_teams = reg@;
        if let Some(f) = &config.channels.feishu {
            if f.enabled && !f.webhook.as_str().is_empty() {
                reg.push(
                    RegisteredChannel {
                        name: "feishu".to_owned(),
                        notifier: Notifier::Feishu(
                            FeishuNotifier::new(f.webhook.clone(), f.at_all_on_critical),
                        ),
                    },
                );
            }
        }
        let ghost after_feishu = reg@;
        if let Some(w) = &config.channels.wechat {
            if w.enabled && !w.key.as_str().is_empty() {
                let notifier = match w.service {
                    WechatServiceType::ServerChan => WechatNotifier::new_serverchan(w.key.clone()),
                    WechatServiceType::PushPlus => WechatNotifier::new_pushplus(w.key.clone()),
                };
                reg.push(RegisteredChannel { name: "wechat".to_owned(), notifier: Notifier::Wechat(notifier) });
            }
        }
        proof {
            let c = config.channels;
            let s = reg@;
            assert("teams"@.len() != "feishu"@.len());
            assert("teams"@.len() != "wechat"@.len());
            assert("feishu"@[0] != "wechat"@[0]);
            assert(after_teams.len() == if teams_ready(c) { 1int } else { 0 });
            assert(teams_ready(c) ==> after_teams[0].name@ == "teams"@);
            assert(after_feishu.len() == after_teams.len() + if feishu_ready(c) { 1int } else { 0 });
            assert(forall|k: int| 0 <= k < after_teams.len() ==> after_feishu[k] == after_teams[k]);
            assert(feishu_ready(c) ==> after_feishu[after_teams.len() as int].name@ == "feishu"@);
            assert(forall|k: int| 0 <= k < after_feishu.len() ==> s[k] == after_feishu[k]);
            assert(s.len() == after_feishu.len() + if wechat_ready(c) { 1int } else { 0 });
            assert forall|k: int| 0 <= k < s.len() implies (#[trigger] s[k]).name@ == "teams"@
                || s[k].name@ == "feishu"@ || s[k].name@ == "wechat"@ by {}
            assert forall|k: int| 0 <= k < s.len() implies {
                &&& (#[trigger] s[k]).name@ == "teams"@ ==> teams_ready(c) && k == 0
                &&& s[k].name@ == "feishu"@ ==> feishu_ready(c) && k == after_teams.len()
                &&& s[k].name@ == "wechat"@ ==> wechat_ready(c) && k == after_feishu.len()
            } by {
                if k < after_teams.len() {
                    assert(s[k] == after_teams[k]);
                } else if k < after_feishu.len() {
                    assert(s[k] == after_feishu[k]);
                }
            }
            if teams_ready(c) {
                lemma_notifier_for(s, "teams"@, 0);
            }
            if feishu_ready(c) {
                lemma_notifier_for(s, "feishu"@, after_teams.len() as int);
            }
            if wechat_ready(c) {
                lemma_notifier_for(s, "wechat"@, after_feishu.len() as int);
            }
        }
        NotificationManager { config, notifiers: reg, message_cache: DedupCache::new() }
    }

    /// The channel names a call selects (see `selected`).
    fn selected_names(&self, event_type: &str, over: Option<Vec<Channel>>) -> (r: Vec<String>)
        ensures
            texts(r@) == selected(self.config.notifications@, event_type@, over),
    {
        match over {
            Some(cs) => {
                let mut names: Vec<String> = Vec::new();
                let mut i: usize = 0;
                while i < cs.len()
                    invariant
                        i <= cs@.len(),
                        names@.len() == i,
                        forall|k: int| 0 <= k < i ==> (#[trigger] names@[k])@ == channel_name(cs@[k]),
                    decreases cs.len() - i,
                {
                    names.push(cs[i].name());
                    i = i + 1;
                }
                assert(texts(names@) =~= channel_names(cs@));
                names
            },
            None => {
                let routes = &self.config.notifications;
                let mut i: usize = 0;
                while i < routes.len()
                    invariant
                        i <= routes@.len(),
                        routes@ == self.config.notifications@,
                        selected(routes@, event_type@, over) == routed(routes@, event_type@),
                        routed(routes@, event_type@) == route_from(routes@, event_type@, i as int),
                    decreases routes.len() - i,
                {
                    if same_text(routes[i].event.as_str(), event_type) {
                        let chans = &routes[i].channels;
                        let mut names: Vec<String> = Vec::new();
                        let mut j: usize = 0;
                        while j < chans.len()
                            invariant
                                j <= chans@.len(),
                                names@.len() == j,
                                forall|k: int| 0 <= k < j ==> (#[trigger] names@[k])@ == chans@[k]@,
                            decreases chans.len() - j,
                        {
                            names.push(chans[j].clone());
                            j = j + 1;
                        }
                        assert(texts(names@) =~= texts(chans@));
                        assert(route_from(routes@, event_type@, i as int) == texts(chans@));
                        return names;
                    }
                    i = i + 1;
                }
                let names: Vec<String> = Vec::new();
                assert(texts(names@) =~= Seq::<Seq<char>>::empty());
                names
            },
        }
    }

    /// Whether quiet hours are in force at clock time `now` ("HH:MM").
    pub fn is_quiet_hours_at(&self, now: &str) -> (r: bool)
        ensures
            r == quiet_active(self.config().quiet_hours, now@),
    {
        self.config.quiet_hours.is_active_at(now)
    }

    /// Whether quiet hours are in force now, by the local clock.
    pub fn is_quiet_hours(&self) -> (r: bool)
        ensures
            exists|now: Seq<char>|
                now.len() == 5 && now[2] == ':' && r == quiet_active(self.config().quiet_hours, now),
            !self.config().quiet_hours.enabled ==> !r,
    {
        let now = local_clock_hhmm();
        let r = self.is_quiet_hours_at(now.as_str());
        assert(now@.len() == 5 && now@[2] == ':' && r == quiet_active(
            self.config().quiet_hours,
            now@,
        ));
        r
    }

    /// The outcome of a dispatch call at clock time `now` and Unix time `ts`,
    /// from manager `pre` to manager `post` with result `r`: held back by quiet
    /// hours, or as a repeat within the dedup window, with nothing changed;
    /// otherwise the fingerprint is recorded and `r` carries one card request
    /// per selected, configured destination.
    pub open spec fn decided(
        pre: Self,
        post: Self,
        event: Seq<char>,
        title: Seq<char>,
        content: Seq<char>,
        level: Seq<char>,
        over: Option<Vec<Channel>>,
        force: bool,
        now: Seq<char>,
        ts: i64,
        r: DispatchPlan,
    ) -> bool {
        let quiet = quiet_suppresses(pre.config().quiet_hours, level, force, now);
        let key = fingerprint(event, title, content);
        let dup = blocks(pre.cache_entries(), key, ts);
        let names = selected(pre.config().notifications@, event, over);
        &&& quiet ==> r is QuietHours && post == pre
        &&& !quiet && dup ==> r is Duplicate && post == pre
        &&& !quiet && !dup ==> {
            &&& recorded(pre.cache_entries(), post.cache_entries(), key, ts)
            &&& r matches DispatchPlan::Deliver(ds) && deliveries_ok(
                pre.registry(),
                names,
                title,
                content,
                level,
                ds@,
            )
        }
    }

    /// Decides a notification at local clock time `now_hhmm` and Unix time
    /// `now_ts`: held back by quiet hours (unless forced or critical), held back
    /// as a repeat within the dedup window, or else recorded in the dedup cache
    /// and turned into one card request per selected, configured destination.
    pub fn send_notification_at(
        &mut self,
        event_type: &str,
        title: &str,
        content: &str,
        level: &str,
        override_channels: Option<Vec<Channel>>,
        force: bool,
        now_hhmm: &str,
        now_ts: i64,
    ) -> (r: DispatchPlan)
        requires
            old(self).wf(),
        ensures
            final(self).wf(),
            final(self).config() == old(self).config(),
            final(self).registry() == old(self).registry(),
            Self::decided(
                *old(self),
                *final(self),
                event_type@,
                title@,
                content@,
                level@,
                override_channels,
                force,
                now_hhmm@,
                now_ts,
                r,
            ),
    {
        let critical = same_text(level, "critical");
        if !force && self.is_quiet_hours_at(now_hhmm) && !critical {
            return DispatchPlan::QuietHours;
        }
        let key = message_key(event_type, title, content);
        if !self.message_cache.should_send(key.as_str(), now_ts) {
            return DispatchPlan::Duplicate;
        }
        let names = self.selected_names(event_type, override_channels);
        let ghost gnames = texts(names@);
        let ghost reg = self.notifiers@;
        let color = color_of(level);
        let mut ds: Vec<Delivery> = Vec::new();
        let mut i: usize = 0;
        while i < names.len()
            invariant
                i <= names@.len(),
                gnames == texts(names@),
                reg == self.notifiers@,
                registry_wf(reg),
                color@ == severity_color(level@),
                critical == (level@ == "critical"@),
                deliveries_ok(reg, gnames.take(i as int), title@, content@, level@, ds@),
            decreases names.len() - i,
        {
            let ghost before = ds@;
            let ghost ts = targets(reg, gnames.take(i as int));
            proof {
                assert(gnames.take(i + 1).drop_last() =~= gnames.take(i as int));
                assert(gnames.take(i + 1).last() == names@[i as int]@);
            }
            match lookup(&self.notifiers, &names[i]) {
                Some(j) => {
                    let body = if critical && same_text(names[i].as_str(), "feishu") {
                        let mut b = content.to_owned();
                        b.append("\n<at user_id='all'></at>");
                        b
                    } else {
                        content.to_owned()
                    };
                    let request = self.notifiers[j].notifier.send_card(
                        title,
                        body.as_str(),
                        color.as_str(),
                        Vec::new(),
                    );
                    ds.push(Delivery { channel: names[i].clone(), request });
                    proof {
                        lemma_notifier_for(reg, names@[i as int]@, j as int);
                        let ts2 = targets(reg, gnames.take(i + 1));
                        assert(ts2 == ts.push(names@[i as int]@));
                        assert forall|k: int| 0 <= k < ds@.len() implies {
                            &&& (#[trigger] ds@[k]).channel@ == ts2[k]
                            &&& notifier_for(reg, ts2[k]).card_ok(
                                title@,
                                channel_content(ts2[k], level@, content@),
                                severity_color(level@),
                                Seq::empty(),
                                ds@[k].request,
                            )
                        } by {
                            if k < before.len() {
                                assert(ds@[k] == before[k]);
                                assert(ts2[k] == ts[k]);
                            }
                        }
                    }
                },
                None => {
                    proof {
                        assert(targets(reg, gnames.take(i + 1)) == ts);
                    }
                },
            }
            i = i + 1;
        }
        proof {
            assert(gnames.take(names@.len() as int) =~= gnames);
        }
        DispatchPlan::Deliver(ds)
    }

    /// Decides a notification by the local clock: the outcome is that of
    /// `send_notification_at` at some clock reading. Whatever the clock reads,
    /// a held-back call changes nothing, only a forced or critical message
    /// escapes quiet hours, a forced or critical message whose fingerprint is
    /// not in the cache is delivered, and the requests are those of the
    /// selected, configured destinations.
    pub fn send_notification(
        &mut self,
        event_type: &str,
        title: &str,
        content: &str,
        level: &str,
        override_channels: Option<Vec<Channel>>,
        force: bool,
    ) -> (r: DispatchPlan)
        requires
            old(self).wf(),
        ensures
            final(self).wf(),
            final(self).config() == old(self).config(),
            final(self).registry() == old(self).registry(),
            exists|now: Seq<char>, ts: i64|
                Self::decided(
                    *old(self),
                    *final(self),
                    event_type@,
                    title@,
                    content@,
                    level@,
                    override_channels,
                    force,
                    now,
                    ts,
                    r,
                ),
            r is QuietHours ==> !force && level@ != "critical"@ && *final(self) == *old(self),
            r is Duplicate ==> *final(self) == *old(self) && exists|ts: i64|
                blocks(old(self).cache_entries(), fingerprint(event_type@, title@, content@), ts),
            (force || level@ == "critical"@) && (forall|i: int|
                0 <= i < old(self).cache_entries().len() ==> (#[trigger] old(self).cache_entries()[i]).key@
                    != fingerprint(event_type@, title@, content@)) ==> r is Deliver,
            r matches DispatchPlan::Deliver(ds) ==> {
                &&& exists|t: i64|
                    recorded(
                        old(self).cache_entries(),
                        final(self).cache_entries(),
                        fingerprint(event_type@, title@, content@),
                        t,
                    )
                &&& deliveries_ok(
                    old(self).registry(),
                    selected(old(self).config().notifications@, event_type@, override_channels),
                    title@,
                    content@,
                    level@,
                    ds@,
                )
            },
    {
        let now = local_clock_hhmm();
        let ts = unix_seconds();
        let ghost pre = *self;
        let ghost over = override_channels;
        let r = self.send_notification_at(
            event_type,
            title,
            content,
            level,
            override_channels,
            force,
            now.as_str(),
            ts,
        );
        assert(Self::decided(
            pre,
            *self,
            event_type@,
            title@,
            content@,
            level@,
            over,
            force,
            now@,
            ts,
            r,
        ));
        r
    }
}

} // verus!

verus! {

/// Without force, a message below critical severity is held back whenever
/// quiet hours are in force.
pub proof fn quiet_hours_hold_back(qh: QuietHours, level: Seq<char>, now: Seq<char>)
    requires
        quiet_active(qh, now),
        level != "critical"@,
    ensures
        quiet_suppresses(qh, level, false, now),
{
}

/// A critical message is never held back by quiet hours, forced or not, at
/// any time.
pub proof fn critical_bypasses_quiet_hours(qh: QuietHours, force: bool, now: Seq<char>)
    ensures
        !quiet_suppresses(qh, "critical"@, force, now),
{
}

/// After a message is sent at `t1`, a message with the same event type, title
/// and first fifty content characters is a repeat at `t2` exactly when `t2`
/// is less than the dedup window after `t1`.
pub proof fn repeat_within_window(
    before: Seq<CacheEntry>,
    after: Seq<CacheEntry>,
    event: Seq<char>,
    title: Seq<char>,
    content1: Seq<char>,
    content2: Seq<char>,
    t1: i64,
    t2: i64,
)
    requires
        recorded(before, after, fingerprint(event, title, content1), t1),
        prefix(content1, 50) == prefix(content2, 50),
    ensures
        blocks(after, fingerprint(event, title, content2), t2) <==> t2 - t1 < DEDUP_WINDOW,
{
    let key = fingerprint(event, title, content1);
    assert(fingerprint(event, title, content2) == key);
    assert(holds(after, key, t1));
    if blocks(after, key, t2) {
        let i = choose|i: int|
            0 <= i < after.len() && #[trigger] after[i].key@ == key && t2 - after[i].sent_at
                < DEDUP_WINDOW;
        assert(holds(after, key, after[i].sent_at));
    }
    if t2 - t1 < DEDUP_WINDOW {
        let i = choose|i: int| 0 <= i < after.len() && #[trigger] after[i].key@ == key && after[i].sent_at == t1;
        assert(after[i].key@ == key);
    }
}

/// After any send, no entry of the cache is as old as the retention period.
pub proof fn purge_bounds_age(
    before: Seq<CacheEntry>,
    after: Seq<CacheEntry>,
    key: Seq<char>,
    now: i64,
)
    requires
        recorded(before, after, key, now),
    ensures
        forall|i: int| 0 <= i < after.len() ==> now - (#[trigger] after[i]).sent_at < RETENTION,
{
    assert forall|i: int| 0 <= i < after.len() implies now - (#[trigger] after[i]).sent_at
        < RETENTION by {
        assert(holds(after, after[i].key@, after[i].sent_at));
    }
}

/// Every name among the targets is configured.
proof fn lemma_targets_registered(reg: Seq<RegisteredChannel>, names: Seq<Seq<char>>)
    ensures
        forall|i: int|
            0 <= i < targets(reg, names).len() ==> registered(reg, #[trigger] targets(reg, names)[i]),
    decreases names.len(),
{
    if names.len() > 0 {
        let rest = targets(reg, names.drop_last());
        lemma_targets_registered(reg, names.drop_last());
        assert forall|i: int|
            0 <= i < targets(reg, names).len() implies registered(
            reg,
            #[trigger] targets(reg, names)[i],
        ) by {
            if i < rest.len() {
                assert(targets(reg, names)[i] == rest[i]);
            }
        }
    }
}

/// With an explicit override the routing table plays no part, and names that
/// are not configured are dropped rather than targeted.
pub proof fn override_ignores_routes(
    routes_a: Seq<Route>,
    routes_b: Seq<Route>,
    event_a: Seq<char>,
    event_b: Seq<char>,
    over: Vec<Channel>,
    reg: Seq<RegisteredChannel>,
)
    ensures
        selected(routes_a, event_a, Some(over)) == channel_names(over@),
        selected(routes_a, event_a, Some(over)) == selected(routes_b, event_b, Some(over)),
        forall|n: Seq<char>|
            #[trigger] targets(reg, channel_names(over@)).contains(n) ==> registered(reg, n),
{
    lemma_targets_registered(reg, channel_names(over@));
}

/// A critical message to the enterprise-chat destination carries the
/// mention-all markup; the same message to the chat-ops destination does not.
pub proof fn mention_only_on_enterprise_chat(content: Seq<char>)
    ensures
        channel_content("feishu"@, "critical"@, content) == content + mention_all(),
        channel_content("teams"@, "critical"@, content) == content,
{
    reveal_strlit("teams");
    reveal_strlit("feishu");
    assert("teams"@.len() != "feishu"@.len());
}

} // verus!
