//! Configuration: destinations, the event routing table and quiet hours.
use vstd::prelude::*;

verus! {

/// Everything the dispatcher is built from.
pub struct Config {
    pub channels: ChannelConfig,
    /// Event type to the channel names it is sent to.
    pub notifications: Vec<Route>,
    pub quiet_hours: QuietHours,
}

/// One row of the routing table.
pub struct Route {
    pub event: String,
    pub channels: Vec<String>,
}

pub struct ChannelConfig {
    pub teams: Option<TeamConfig>,
    pub feishu: Option<FeishuConfig>,
    pub wechat: Option<WechatConfig>,
}

pub struct TeamConfig {
    pub enabled: bool,
    pub webhook: String,
    pub default_channel: String,
}

pub struct FeishuConfig {
    pub enabled: bool,
    pub webhook: String,
    pub at_all_on_critical: bool,
}

pub struct WechatConfig {
    pub enabled: bool,
    pub service: WechatServiceType,
    /// The path key or the body token, depending on the backend.
    pub key: String,
}

#[derive(PartialEq, Eq, Structural, Clone, Copy)]
pub enum WechatServiceType {
    ServerChan,
    PushPlus,
}

/// A daily window, as "HH:MM" texts, during which non-critical messages are held back.
pub struct QuietHours {
    pub enabled: bool,
    pub start: String,
    pub end: String,
}

} // verus!

verus! {

/// The texts of a list of strings.
pub open spec fn texts(v: Seq<String>) -> Seq<Seq<char>> {
    v.map_values(|s: String| s@)
}

/// The built-in routing table. The "test" event has no row: a test names its
/// channel explicitly.
pub open spec fn default_routes() -> Seq<(Seq<char>, Seq<Seq<char>>)> {
    seq![
        ("build_success"@, seq!["teams"@, "feishu"@]),
        ("build_failure"@, seq!["teams"@, "feishu"@, "wechat"@]),
        ("security_alert"@, seq!["teams"@, "feishu"@, "wechat"@]),
        ("daily_report"@, seq!["feishu"@]),
    ]
}

/// `routes` is the built-in routing table, row for row.
pub open spec fn is_default_routes(routes: Seq<Route>) -> bool {
    &&& routes.len() == default_routes().len()
    &&& forall|i: int|
        0 <= i < routes.len() ==> (#[trigger] routes[i]).event@ == default_routes()[i].0 && texts(
            routes[i].channels@,
        ) == default_routes()[i].1
}

fn route(event: &str, first: &str, second: Option<&str>, third: Option<&str>) -> (r: Route)
    ensures
        r.event@ == event@,
        texts(r.channels@) == seq![first@] + match second {
            Some(s) => seq![s@],
            None => Seq::empty(),
        } + match third {
            Some(s) => seq![s@],
            None => Seq::empty(),
        },
{
    let mut channels = Vec::new();
    channels.push(first.to_owned());
    if let Some(s) = second {
        channels.push(s.to_owned());
    }
    if let Some(s) = third {
        channels.push(s.to_owned());
    }
    let r = Route { event: event.to_owned(), channels };
    assert(texts(r.channels@) =~= seq![first@] + match second {
        Some(s) => seq![s@],
        None => Seq::empty(),
    } + match third {
        Some(s) => seq![s@],
        None => Seq::empty(),
    });
    r
}

impl Default for Config {
    /// No destination configured, the built-in routing table, and quiet hours
    /// from 22:00 to 08:00.
    fn default() -> (r: Self)
        ensures
            r.channels.teams is None,
            r.channels.feishu is None,
            r.channels.wechat is None,
            is_default_routes(r.notifications@),
            r.quiet_hours.enabled,
            r.quiet_hours.start@ == "22:00"@,
            r.quiet_hours.end@ == "08:00"@,
    {
        let mut notifications = Vec::new();
        notifications.push(route("build_success", "teams", Some("feishu"), None));
        notifications.push(route("build_failure", "teams", Some("feishu"), Some("wechat")));
        notifications.push(route("security_alert", "teams", Some("feishu"), Some("wechat")));
        notifications.push(route("daily_report", "feishu", None, None));
        proof {
            let rs = notifications@;
            assert(texts(rs[0].channels@) =~= seq!["teams"@, "feishu"@]);
            assert(texts(rs[1].channels@) =~= seq!["teams"@, "feishu"@, "wechat"@]);
            assert(texts(rs[2].channels@) =~= seq!["teams"@, "feishu"@, "wechat"@]);
            assert(texts(rs[3].channels@) =~= seq!["feishu"@]);
        }
        Config {
            channels: ChannelConfig { teams: None, feishu: None, wechat: None },
            notifications,
            quiet_hours: QuietHours {
                enabled: true,
                start: "22:00".to_owned(),
                end: "08:00".to_owned(),
            },
        }
    }
}

} // verus!
