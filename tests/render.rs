use webhook_notifier::config::{Config, QuietHours};
use webhook_notifier::dispatch::{color_of, message_key};
use webhook_notifier::json::Json;
use webhook_notifier::notifiers::{
    Action, FeishuNotifier, Notifier, TeamsNotifier, WechatNotifier,
};
use webhook_notifier::quiet::text_less;

fn field<'a>(j: &'a Json, name: &str) -> &'a Json {
    match j {
        Json::Object(members) => {
            for (k, v) in members {
                if k == name {
                    return v;
                }
            }
            panic!("no member {}", name)
        }
        _ => panic!("not an object"),
    }
}

fn text_of(j: &Json) -> &str {
    match j {
        Json::Text(s) => s.as_str(),
        _ => panic!("not a string"),
    }
}

fn items(j: &Json) -> &Vec<Json> {
    match j {
        Json::List(v) => v,
        _ => panic!("not an array"),
    }
}

fn keys(j: &Json) -> Vec<String> {
    match j {
        Json::Object(members) => members.iter().map(|(k, _)| k.clone()).collect(),
        _ => panic!("not an object"),
    }
}

fn link(text: &str, url: &str) -> Action {
    Action { text: text.to_string(), url: url.to_string() }
}

#[test]
fn quiet_window_wrapping_midnight() {
    let qh = QuietHours { enabled: true, start: "22:00".to_string(), end: "08:00".to_string() };
    assert!(qh.is_active_at("23:00"));
    assert!(qh.is_active_at("05:00"));
    assert!(!qh.is_active_at("12:00"));
    assert!(qh.is_active_at("22:00"));
    assert!(qh.is_active_at("08:00"));
    assert!(!qh.is_active_at("08:01"));
}

#[test]
fn quiet_window_same_day() {
    let qh = QuietHours { enabled: true, start: "09:00".to_string(), end: "17:00".to_string() };
    assert!(qh.is_active_at("09:00"));
    assert!(qh.is_active_at("12:30"));
    assert!(qh.is_active_at("17:00"));
    assert!(!qh.is_active_at("17:01"));
    assert!(!qh.is_active_at("08:59"));
}

#[test]
fn quiet_window_disabled() {
    let qh = QuietHours { enabled: false, start: "00:00".to_string(), end: "23:59".to_string() };
    assert!(!qh.is_active_at("12:00"));
}

#[test]
fn lexicographic_compare() {
    assert!(text_less("08:00", "22:00"));
    assert!(!text_less("22:00", "08:00"));
    assert!(!text_less("12:00", "12:00"));
    assert!(text_less("12", "12:00"));
    assert!(!text_less("12:00", "12"));
    assert!(text_less("", "a"));
}

#[test]
fn palette() {
    assert_eq!(color_of("info"), "0078D4");
    assert_eq!(color_of("warning"), "FFA500");
    assert_eq!(color_of("critical"), "DC3545");
    assert_eq!(color_of("success"), "28A745");
    assert_eq!(color_of("bogus"), "0078D4");
}

#[test]
fn key_keeps_fifty_characters() {
    let long: String = "x".repeat(60);
    assert_eq!(message_key("ev", "t", &long), format!("ev:t:{}", "x".repeat(50)));
    assert_eq!(message_key("ev", "t", "short"), "ev:t:short");
    let wide: String = "é".repeat(55);
    assert_eq!(message_key("e", "t", &wide), format!("e:t:{}", "é".repeat(50)));
}

#[test]
fn default_config_routes() {
    let c = Config::default();
    assert!(c.channels.teams.is_none() && c.channels.feishu.is_none() && c.channels.wechat.is_none());
    assert_eq!(c.notifications.len(), 4);
    assert_eq!(c.notifications[0].event, "build_success");
    assert_eq!(c.notifications[0].channels, vec!["teams", "feishu"]);
    assert_eq!(c.notifications[1].event, "build_failure");
    assert_eq!(c.notifications[1].channels, vec!["teams", "feishu", "wechat"]);
    assert_eq!(c.notifications[2].event, "security_alert");
    assert_eq!(c.notifications[3].channels, vec!["feishu"]);
    assert!(c.notifications.iter().all(|r| r.event != "test"));
    assert!(c.quiet_hours.enabled);
    assert_eq!(c.quiet_hours.start, "22:00");
    assert_eq!(c.quiet_hours.end, "08:00");
}

#[test]
fn teams_card_shape() {
    let n = TeamsNotifier::new("https://hook/teams".to_string());
    let r = n.send_card("T", "body", "DC3545", vec![link("Open", "https://x")]);
    assert_eq!(r.url, "https://hook/teams");
    assert_eq!(keys(&r.body), vec!["@type", "@context", "themeColor", "summary", "sections", "potentialAction"]);
    assert_eq!(text_of(field(&r.body, "@type")), "MessageCard");
    assert_eq!(text_of(field(&r.body, "themeColor")), "DC3545");
    assert_eq!(text_of(field(&r.body, "summary")), "T");
    let section = &items(field(&r.body, "sections"))[0];
    assert_eq!(text_of(field(section, "activityTitle")), "T");
    assert_eq!(text_of(field(section, "text")), "body");
    assert!(matches!(field(section, "markdown"), Json::Flag(true)));
    let action = &items(field(&r.body, "potentialAction"))[0];
    assert_eq!(text_of(field(action, "@type")), "OpenUri");
    assert_eq!(text_of(field(action, "name")), "Open");
    let target = &items(field(action, "targets"))[0];
    assert_eq!(text_of(field(target, "uri")), "https://x");
}

#[test]
fn teams_card_without_actions() {
    let n = TeamsNotifier::new("https://hook/teams".to_string());
    let r = n.send_card("T", "body", "0078D4", vec![]);
    assert_eq!(keys(&r.body).len(), 5);
    let t = n.send_text("hello");
    assert_eq!(keys(&t.body), vec!["text"]);
    assert_eq!(text_of(field(&t.body, "text")), "hello");
}

#[test]
fn feishu_card_shape() {
    let n = FeishuNotifier::new("https://hook/feishu".to_string(), true);
    let r = n.send_card("Title", "md", "FFA500", vec![link("Go", "https://y")]);
    assert_eq!(r.url, "https://hook/feishu");
    assert_eq!(text_of(field(&r.body, "msg_type")), "interactive");
    let card = field(&r.body, "card");
    let header = field(card, "header");
    assert_eq!(text_of(field(field(header, "title"), "content")), "Title");
    assert_eq!(text_of(field(field(header, "title"), "tag")), "plain_text");
    assert_eq!(text_of(field(header, "template")), "FFA500");
    let els = items(field(card, "elements"));
    assert_eq!(els.len(), 2);
    assert_eq!(text_of(field(&els[0], "tag")), "markdown");
    assert_eq!(text_of(field(&els[0], "content")), "md");
    assert_eq!(text_of(field(&els[1], "tag")), "action");
    let button = &items(field(&els[1], "actions"))[0];
    assert_eq!(text_of(field(field(button, "text"), "content")), "Go");
    assert_eq!(text_of(field(button, "url")), "https://y");
    assert_eq!(text_of(field(button, "type")), "default");
    let t = n.send_text("hi");
    assert_eq!(text_of(field(&t.body, "msg_type")), "text");
    assert_eq!(text_of(field(field(&t.body, "content"), "text")), "hi");
}

#[test]
fn feishu_card_without_actions() {
    let n = FeishuNotifier::new("https://hook/feishu".to_string(), false);
    let r = n.send_card("Title", "md", "FFA500", vec![]);
    assert_eq!(items(field(field(&r.body, "card"), "elements")).len(), 1);
}

#[test]
fn serverchan_requests() {
    let n = WechatNotifier::new_serverchan("SCTKEY".to_string());
    let r = n.send_card("T", "c", "DC3545", vec![link("A", "u1"), link("B", "u2")]);
    assert_eq!(r.url, "https://sctapi.ftqq.com/SCTKEY.send");
    assert_eq!(keys(&r.body), vec!["title", "desp"]);
    assert_eq!(text_of(field(&r.body, "title")), "T");
    assert_eq!(text_of(field(&r.body, "desp")), "c\n\n---\n[A](u1)\n[B](u2)\n");
    let t = n.send_text("plain");
    assert_eq!(text_of(field(&t.body, "title")), "通知");
    assert_eq!(text_of(field(&t.body, "desp")), "plain");
}

#[test]
fn pushplus_requests() {
    let n = WechatNotifier::new_pushplus("TOKEN".to_string());
    let r = n.send_card("T", "c", "DC3545", vec![]);
    assert_eq!(r.url, "http://www.pushplus.plus/send");
    assert_eq!(keys(&r.body), vec!["token", "title", "content", "template"]);
    assert_eq!(text_of(field(&r.body, "token")), "TOKEN");
    assert_eq!(text_of(field(&r.body, "content")), "c");
    assert_eq!(text_of(field(&r.body, "template")), "markdown");
    let t = n.send_text("plain");
    assert_eq!(text_of(field(&t.body, "template")), "txt");
    assert_eq!(text_of(field(&t.body, "content")), "plain");
}

#[test]
fn notifier_dispatches_to_variant() {
    let n = Notifier::Wechat(WechatNotifier::new_pushplus("TOK".to_string()));
    let r = n.send_card("T", "c", "x", vec![]);
    assert_eq!(r.url, "http://www.pushplus.plus/send");
    let n = Notifier::Teams(TeamsNotifier::new("https://t".to_string()));
    assert_eq!(n.send_card("T", "c", "x", vec![]).url, "https://t");
}

#[test]
fn notifier_plain_text() {
    let n = Notifier::Feishu(FeishuNotifier::new("https://f".to_string(), false));
    let r = n.send_text("ping");
    assert_eq!(r.url, "https://f");
    assert_eq!(text_of(field(field(&r.body, "content"), "text")), "ping");
    let n = Notifier::Wechat(WechatNotifier::new_serverchan("K".to_string()));
    let r = n.send_text("ping");
    assert_eq!(r.url, "https://sctapi.ftqq.com/K.send");
    assert_eq!(text_of(field(&r.body, "desp")), "ping");
}
