use webhook_notifier::config::{
    ChannelConfig, Config, FeishuConfig, Route, TeamConfig, WechatConfig,
    WechatServiceType,
};
use webhook_notifier::dedup::DedupCache;
use webhook_notifier::dispatch::{Channel, Delivery, DispatchPlan, NotificationManager};
use webhook_notifier::json::Json;

fn full_config() -> Config {
    let mut c = Config::default();
    c.channels = ChannelConfig {
        teams: Some(TeamConfig {
            enabled: true,
            webhook: "https://hook/teams".to_string(),
            default_channel: String::new(),
        }),
        feishu: Some(FeishuConfig {
            enabled: true,
            webhook: "https://hook/feishu".to_string(),
            at_all_on_critical: true,
        }),
        wechat: Some(WechatConfig {
            enabled: true,
            service: WechatServiceType::ServerChan,
            key: "KEY".to_string(),
        }),
    };
    c
}

fn deliveries(p: DispatchPlan) -> Vec<Delivery> {
    match p {
        DispatchPlan::Deliver(ds) => ds,
        DispatchPlan::QuietHours => panic!("held back by quiet hours"),
        DispatchPlan::Duplicate => panic!("held back as duplicate"),
    }
}

fn names(ds: &[Delivery]) -> Vec<String> {
    ds.iter().map(|d| d.channel.clone()).collect()
}

fn field<'a>(j: &'a Json, name: &str) -> &'a Json {
    match j {
        Json::Object(m) => &m.iter().find(|(k, _)| k == name).expect("member").1,
        _ => panic!("not an object"),
    }
}

fn first(j: &Json) -> &Json {
    match j {
        Json::List(v) => &v[0],
        _ => panic!("not an array"),
    }
}

/// The message text of a chat-ops or enterprise-chat card.
fn markdown_of(d: &Delivery) -> String {
    let j = if d.channel == "feishu" {
        field(first(field(field(&d.request.body, "card"), "elements")), "content")
    } else {
        field(first(field(&d.request.body, "sections")), "text")
    };
    match j {
        Json::Text(s) => s.clone(),
        _ => panic!("not a string"),
    }
}

#[test]
fn end_to_end_build_failure() {
    let mut m = NotificationManager::new(full_config());
    let p = m.send_notification_at(
        "build_failure", "Build #42 failed", "exit code 1", "critical", None, false, "12:00", 1000,
    );
    let ds = deliveries(p);
    assert_eq!(names(&ds), vec!["teams", "feishu", "wechat"]);
    assert_eq!(ds[0].request.url, "https://hook/teams");
    assert_eq!(ds[1].request.url, "https://hook/feishu");
    assert_eq!(ds[2].request.url, "https://sctapi.ftqq.com/KEY.send");
}

#[test]
fn quiet_hours_hold_back_non_critical() {
    for level in ["info", "warning", "success", "other"] {
        let mut m = NotificationManager::new(full_config());
        let p = m.send_notification_at("build_failure", "t", "c", level, None, false, "23:00", 1000);
        assert!(matches!(p, DispatchPlan::QuietHours));
        // nothing was recorded: the same message outside quiet hours goes out
        let p = m.send_notification_at("build_failure", "t", "c", level, None, false, "12:00", 1001);
        assert_eq!(deliveries(p).len(), 3);
    }
}

#[test]
fn critical_and_forced_pass_quiet_hours() {
    let mut m = NotificationManager::new(full_config());
    let p = m.send_notification_at("build_failure", "t", "c", "critical", None, false, "23:00", 1000);
    assert_eq!(deliveries(p).len(), 3);
    let p = m.send_notification_at("build_failure", "t2", "c", "critical", None, true, "23:00", 1000);
    assert_eq!(deliveries(p).len(), 3);
    let p = m.send_notification_at("build_failure", "t3", "c", "info", None, true, "05:00", 1000);
    assert_eq!(deliveries(p).len(), 3);
}

#[test]
fn repeat_within_window_is_duplicate() {
    let mut m = NotificationManager::new(full_config());
    let p = m.send_notification_at("build_success", "t", "c", "info", None, false, "12:00", 1000);
    assert_eq!(deliveries(p).len(), 2);
    let p = m.send_notification_at("build_success", "t", "c", "info", None, false, "12:00", 1299);
    assert!(matches!(p, DispatchPlan::Duplicate));
    let p = m.send_notification_at("build_success", "t", "c", "info", None, false, "12:00", 1300);
    assert_eq!(deliveries(p).len(), 2);
}

#[test]
fn repeat_with_same_prefix_is_duplicate() {
    let mut m = NotificationManager::new(full_config());
    let a = format!("{}tail one", "p".repeat(50));
    let b = format!("{}tail two", "p".repeat(50));
    let p = m.send_notification_at("build_success", "t", &a, "info", None, false, "12:00", 0);
    assert_eq!(deliveries(p).len(), 2);
    let p = m.send_notification_at("build_success", "t", &b, "info", None, false, "12:00", 10);
    assert!(matches!(p, DispatchPlan::Duplicate));
    let p = m.send_notification_at("build_success", "t2", &b, "info", None, false, "12:00", 10);
    assert_eq!(deliveries(p).len(), 2);
}

#[test]
fn cache_purges_old_entries() {
    let mut c = DedupCache::new();
    assert!(c.should_send("a", 0));
    assert!(c.should_send("b", 100));
    assert_eq!(c.len(), 2);
    assert!(!c.should_send("a", 299));
    assert!(c.should_send("c", 650));
    // "a" (sent at 0) is purged, "b" (sent at 100) is kept
    assert_eq!(c.len(), 2);
    assert!(!c.should_send("b", 350));
    assert!(c.should_send("a", 651));
    assert!(c.should_send("d", 2000));
    assert_eq!(c.len(), 1);
}

#[test]
fn override_ignores_routing_table() {
    let mut config = full_config();
    config.channels.wechat.as_mut().unwrap().enabled = false;
    config.notifications = vec![Route { event: "e".to_string(), channels: vec!["feishu".to_string()] }];
    let mut m = NotificationManager::new(config);
    let p = m.send_notification_at(
        "e", "t", "c", "info", Some(vec![Channel::Teams, Channel::Wechat]), false, "12:00", 0,
    );
    assert_eq!(names(&deliveries(p)), vec!["teams"]);
}

#[test]
fn unrouted_event_selects_nothing() {
    let mut m = NotificationManager::new(full_config());
    let p = m.send_notification_at("test", "t", "c", "info", None, false, "12:00", 0);
    assert!(deliveries(p).is_empty());
}

#[test]
fn unconfigured_destinations_are_skipped() {
    let mut config = full_config();
    config.channels.teams = None;
    config.channels.feishu.as_mut().unwrap().webhook = String::new();
    let mut m = NotificationManager::new(config);
    let p = m.send_notification_at("build_failure", "t", "c", "info", None, false, "12:00", 0);
    assert_eq!(names(&deliveries(p)), vec!["wechat"]);
}

#[test]
fn critical_mentions_all_on_enterprise_chat_only() {
    let mut m = NotificationManager::new(full_config());
    let p = m.send_notification_at("build_failure", "t", "disk full", "critical", None, false, "12:00", 0);
    let ds = deliveries(p);
    assert_eq!(markdown_of(&ds[0]), "disk full");
    assert_eq!(markdown_of(&ds[1]), "disk full\n<at user_id='all'></at>");
    let p = m.send_notification_at("build_failure", "t", "disk ok", "warning", None, false, "12:00", 0);
    let ds = deliveries(p);
    assert_eq!(markdown_of(&ds[1]), "disk ok");
}

#[test]
fn severity_colours_reach_cards() {
    let mut m = NotificationManager::new(full_config());
    let p = m.send_notification_at("build_success", "t", "c", "success", None, false, "12:00", 0);
    let ds = deliveries(p);
    match &ds[0].request.body {
        Json::Object(members) => {
            let (_, v) = members.iter().find(|(k, _)| k == "themeColor").unwrap();
            assert!(matches!(v, Json::Text(s) if s == "28A745"));
        }
        _ => panic!("not an object"),
    }
}

#[test]
fn pushplus_backend_is_registered() {
    let mut config = full_config();
    config.channels.wechat = Some(WechatConfig {
        enabled: true,
        service: WechatServiceType::PushPlus,
        key: "TOK".to_string(),
    });
    let mut m = NotificationManager::new(config);
    let p = m.send_notification_at(
        "x", "t", "c", "info", Some(vec![Channel::Wechat]), false, "12:00", 0,
    );
    let ds = deliveries(p);
    assert_eq!(ds[0].request.url, "http://www.pushplus.plus/send");
}

#[test]
fn quiet_hours_check_uses_config() {
    let m = NotificationManager::new(full_config());
    assert!(m.is_quiet_hours_at("23:00"));
    assert!(!m.is_quiet_hours_at("12:00"));
}

#[test]
fn forced_call_by_clock_delivers() {
    let mut m = NotificationManager::new(full_config());
    let p = m.send_notification("build_failure", "Build #42 failed", "exit code 1", "info", None, true);
    assert_eq!(names(&deliveries(p)), vec!["teams", "feishu", "wechat"]);
    let p = m.send_notification("build_failure", "Build #42 failed", "exit code 1", "info", None, true);
    assert!(matches!(p, DispatchPlan::Duplicate));
}
