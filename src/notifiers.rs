//! The three destination families and the payload each one posts.
use vstd::prelude::*;
use crate::json::{entry, tagged, text, Json};
use crate::json::{elems, fields, has_keys, is_flag, is_list, is_text, member, tagged_ok};

verus! {

/// A link button attached to a message: its label and its target.
pub struct Action {
    pub text: String,
    pub url: String,
}

/// A request ready for the transport: the endpoint and the JSON body.
pub struct WebhookRequest {
    pub url: String,
    pub body: Json,
}

/// Chat-ops style destination posting message cards to one webhook.
pub struct TeamsNotifier {
    webhook: String,
}

impl TeamsNotifier {
    pub closed spec fn webhook(&self) -> Seq<char> {
        self.webhook@
    }

    pub fn new(webhook: String) -> (r: Self)
        ensures
            r.webhook() == webhook@,
    {
        Self { webhook }
    }

    pub fn send_text(&self, msg: &str) -> (r: WebhookRequest)
        ensures
            r.url@ == self.webhook(),
            teams_text_ok(r.body, msg@),
    {
        let mut body = Vec::new();
        body.push(entry("text", text(msg)));
        let r = WebhookRequest { url: self.webhook.clone(), body: Json::Object(body) };
        r
    }

    pub fn send_card(&self, title: &str, content: &str, color: &str, actions: Vec<Action>) -> (r:
        WebhookRequest)
        ensures
            r.url@ == self.webhook(),
            teams_card_ok(r.body, title@, content@, color@, actions@),
    {
        let mut section = Vec::new();
        section.push(entry("activityTitle", text(title)));
        section.push(entry("text", text(content)));
        section.push(entry("markdown", Json::Flag(true)));
        let section = Json::Object(section);
        let mut sections = Vec::new();
        sections.push(section);
        let mut card = Vec::new();
        card.push(entry("@type", text("MessageCard")));
        card.push(entry("@context", text("http://schema.org/extensions")));
        card.push(entry("themeColor", text(color)));
        card.push(entry("summary", text(title)));
        card.push(entry("sections", Json::List(sections)));
        if actions.len() > 0 {
            let mut list: Vec<Json> = Vec::new();
            let mut i: usize = 0;
            while i < actions.len()
                invariant
                    i <= actions.len(),
                    list@.len() == i,
                    forall|k: int| 0 <= k < i ==> teams_action_ok(#[trigger] list@[k], actions@[k]),
                decreases actions.len() - i,
            {
                list.push(teams_action(&actions[i]));
                i = i + 1;
            }
            card.push(entry("potentialAction", Json::List(list)));
        }
        let r = WebhookRequest { url: self.webhook.clone(), body: Json::Object(card) };
        assert(fields(r.body) =~= card@);
        r
    }
}

/// `j` is the chat-ops plain message `{"text": msg}`.
pub open spec fn teams_text_ok(j: Json, msg: Seq<char>) -> bool {
    has_keys(j, seq!["text"@]) && is_text(member(j, 0), msg)
}

/// `j` is the enterprise-chat plain message.
pub open spec fn feishu_text_ok(j: Json, msg: Seq<char>) -> bool {
    &&& has_keys(j, seq!["msg_type"@, "content"@])
    &&& is_text(member(j, 0), "text"@)
    &&& has_keys(member(j, 1), seq!["text"@])
    &&& is_text(member(member(j, 1), 0), msg)
}

/// `j` is the chat-ops link button for `a`.
pub open spec fn teams_action_ok(j: Json, a: Action) -> bool {
    let target = elems(member(j, 2))[0];
    &&& has_keys(j, seq!["@type"@, "name"@, "targets"@])
    &&& is_text(member(j, 0), "OpenUri"@)
    &&& is_text(member(j, 1), a.text@)
    &&& is_list(member(j, 2), 1)
    &&& has_keys(target, seq!["os"@, "uri"@])
    &&& is_text(member(target, 0), "default"@)
    &&& is_text(member(target, 1), a.url@)
}

/// `j` is the chat-ops message card: themed by `color`, with one markdown
/// section, and a row of link buttons when `actions` is not empty.
pub open spec fn teams_card_ok(
    j: Json,
    title: Seq<char>,
    content: Seq<char>,
    color: Seq<char>,
    actions: Seq<Action>,
) -> bool {
    let keys = seq!["@type"@, "@context"@, "themeColor"@, "summary"@, "sections"@];
    let section = elems(member(j, 4))[0];
    &&& if actions.len() == 0 {
        has_keys(j, keys)
    } else {
        &&& has_keys(j, keys.push("potentialAction"@))
        &&& is_list(member(j, 5), actions.len() as int)
        &&& forall|i: int|
            0 <= i < actions.len() ==> teams_action_ok(#[trigger] elems(member(j, 5))[i], actions[i])
    }
    &&& is_text(member(j, 0), "MessageCard"@)
    &&& is_text(member(j, 1), "http://schema.org/extensions"@)
    &&& is_text(member(j, 2), color)
    &&& is_text(member(j, 3), title)
    &&& is_list(member(j, 4), 1)
    &&& has_keys(section, seq!["activityTitle"@, "text"@, "markdown"@])
    &&& is_text(member(section, 0), title)
    &&& is_text(member(section, 1), content)
    &&& is_flag(member(section, 2), true)
}

fn teams_action(a: &Action) -> (r: Json)
    ensures
        teams_action_ok(r, *a),
{
    let mut target = Vec::new();
    target.push(entry("os", text("default")));
    target.push(entry("uri", text(a.url.as_str())));
    let mut targets = Vec::new();
    targets.push(Json::Object(target));
    let mut v = Vec::new();
    v.push(entry("@type", text("OpenUri")));
    v.push(entry("name", text(a.text.as_str())));
    v.push(entry("targets", Json::List(targets)));
    let r = Json::Object(v);
    assert(fields(r) =~= v@);
    r
}

} // verus!

verus! {

/// Enterprise-chat style destination posting interactive cards to one webhook.
pub struct FeishuNotifier {
    webhook: String,
}

/// `j` is the enterprise-chat button for `a`.
pub open spec fn feishu_button_ok(j: Json, a: Action) -> bool {
    &&& has_keys(j, seq!["tag"@, "text"@, "url"@, "type"@])
    &&& is_text(member(j, 0), "button"@)
    &&& tagged_ok(member(j, 1), "plain_text"@, a.text@)
    &&& is_text(member(j, 2), a.url@)
    &&& is_text(member(j, 3), "default"@)
}

/// `j` is the enterprise-chat interactive card: a header titled `title` in
/// template `color`, one markdown element, and an action block of buttons when
/// `actions` is not empty.
pub open spec fn feishu_card_ok(
    j: Json,
    title: Seq<char>,
    content: Seq<char>,
    color: Seq<char>,
    actions: Seq<Action>,
) -> bool {
    let card = member(j, 1);
    let header = member(card, 0);
    let els = member(card, 1);
    let block = elems(els)[1];
    &&& has_keys(j, seq!["msg_type"@, "card"@])
    &&& is_text(member(j, 0), "interactive"@)
    &&& has_keys(card, seq!["header"@, "elements"@])
    &&& has_keys(header, seq!["title"@, "template"@])
    &&& tagged_ok(member(header, 0), "plain_text"@, title)
    &&& is_text(member(header, 1), color)
    &&& is_list(els, if actions.len() == 0 { 1 } else { 2 })
    &&& tagged_ok(elems(els)[0], "markdown"@, content)
    &&& actions.len() > 0 ==> {
        &&& has_keys(block, seq!["tag"@, "actions"@])
        &&& is_text(member(block, 0), "action"@)
        &&& is_list(member(block, 1), actions.len() as int)
        &&& forall|i: int|
            0 <= i < actions.len() ==> feishu_button_ok(
                #[trigger] elems(member(block, 1))[i],
                actions[i],
            )
    }
}

fn feishu_button(a: &Action) -> (r: Json)
    ensures
        feishu_button_ok(r, *a),
{
    let mut v = Vec::new();
    v.push(entry("tag", text("button")));
    v.push(entry("text", tagged("plain_text", a.text.as_str())));
    v.push(entry("url", text(a.url.as_str())));
    v.push(entry("type", text("default")));
    let r = Json::Object(v);
    assert(fields(r) =~= v@);
    r
}

impl FeishuNotifier {
    pub closed spec fn webhook(&self) -> Seq<char> {
        self.webhook@
    }

    /// The mention flag is accepted for configuration compatibility; the
    /// mention itself is added to the content by the dispatcher.
    pub fn new(webhook: String, _at_all_on_critical: bool) -> (r: Self)
        ensures
            r.webhook() == webhook@,
    {
        Self { webhook }
    }

    pub fn send_text(&self, msg: &str) -> (r: WebhookRequest)
        ensures
            r.url@ == self.webhook(),
            feishu_text_ok(r.body, msg@),
    {
        let mut inner = Vec::new();
        inner.push(entry("text", text(msg)));
        let inner = Json::Object(inner);
        let mut v = Vec::new();
        v.push(entry("msg_type", text("text")));
        v.push(entry("content", inner));
        let r = WebhookRequest { url: self.webhook.clone(), body: Json::Object(v) };
        assert(fields(r.body) =~= v@);
        r
    }

    pub fn send_card(&self, title: &str, content: &str, color: &str, actions: Vec<Action>) -> (r:
        WebhookRequest)
        ensures
            r.url@ == self.webhook(),
            feishu_card_ok(r.body, title@, content@, color@, actions@),
    {
        let mut elements = Vec::new();
        elements.push(tagged("markdown", content));
        if actions.len() > 0 {
            let mut buttons: Vec<Json> = Vec::new();
            let mut i: usize = 0;
            while i < actions.len()
                invariant
                    i <= actions.len(),
                    buttons@.len() == i,
                    forall|k: int|
                        0 <= k < i ==> feishu_button_ok(#[trigger] buttons@[k], actions@[k]),
                decreases actions.len() - i,
            {
                buttons.push(feishu_button(&actions[i]));
                i = i + 1;
            }
            let mut block = Vec::new();
            block.push(entry("tag", text("action")));
            block.push(entry("actions", Json::List(buttons)));
            let block = Json::Object(block);
            elements.push(block);
        }
        let mut header = Vec::new();
        header.push(entry("title", tagged("plain_text", title)));
        header.push(entry("template", text(color)));
        let header = Json::Object(header);
        let mut card = Vec::new();
        card.push(entry("header", header));
        card.push(entry("elements", Json::List(elements)));
        let card = Json::Object(card);
        let mut v = Vec::new();
        v.push(entry("msg_type", text("interactive")));
        v.push(entry("card", card));
        let r = WebhookRequest { url: self.webhook.clone(), body: Json::Object(v) };
        assert(fields(r.body) =~= v@);
        r
    }
}

/// The two personal-push backends: a key carried in the URL path, or a token
/// carried in the body.
pub enum WechatService {
    ServerChan { key: String },
    PushPlus { token: String },
}

/// Personal-push style destination.
pub struct WechatNotifier {
    service: WechatService,
}

/// The endpoint of a personal-push backend.
pub open spec fn wechat_url(service: WechatService) -> Seq<char> {
    match service {
        WechatService::ServerChan { key } => "https://sctapi.ftqq.com/"@ + key@ + ".send"@,
        WechatService::PushPlus { .. } => "http://www.pushplus.plus/send"@,
    }
}

/// `j` is the personal-push body carrying `title` and `body`; the token-in-body
/// backend also carries its token and the `template` name.
pub open spec fn wechat_post_ok(
    service: WechatService,
    j: Json,
    title: Seq<char>,
    body: Seq<char>,
    template: Seq<char>,
) -> bool {
    match service {
        WechatService::ServerChan { .. } => {
            &&& has_keys(j, seq!["title"@, "desp"@])
            &&& is_text(member(j, 0), title)
            &&& is_text(member(j, 1), body)
        },
        WechatService::PushPlus { token } => {
            &&& has_keys(j, seq!["token"@, "title"@, "content"@, "template"@])
            &&& is_text(member(j, 0), token@)
            &&& is_text(member(j, 1), title)
            &&& is_text(member(j, 2), body)
            &&& is_text(member(j, 3), template)
        },
    }
}

/// The `[text](url)` lines listing `actions`, one per line.
pub open spec fn action_links(actions: Seq<Action>) -> Seq<char>
    decreases actions.len(),
{
    if actions.len() == 0 {
        Seq::empty()
    } else {
        let a = actions.last();
        action_links(actions.drop_last()) + "["@ + a.text@ + "]("@ + a.url@ + ")\n"@
    }
}

/// The personal-push card body: the content, followed by a separator and the
/// action links when there are actions.
pub open spec fn wechat_card_body(content: Seq<char>, actions: Seq<Action>) -> Seq<char> {
    if actions.len() == 0 {
        content
    } else {
        content + "\n\n---\n"@ + action_links(actions)
    }
}

impl WechatNotifier {
    pub closed spec fn service(&self) -> WechatService {
        self.service
    }

    pub fn new_serverchan(key: String) -> (r: Self)
        ensures
            r.service() == (WechatService::ServerChan { key }),
    {
        Self { service: WechatService::ServerChan { key } }
    }

    pub fn new_pushplus(token: String) -> (r: Self)
        ensures
            r.service() == (WechatService::PushPlus { token }),
    {
        Self { service: WechatService::PushPlus { token } }
    }

    fn post(&self, title: &str, body: &str, template: &str) -> (r: WebhookRequest)
        ensures
            r.url@ == wechat_url(self.service()),
            wechat_post_ok(self.service(), r.body, title@, body@, template@),
    {
        match &self.service {
            WechatService::ServerChan { key } => {
                let mut url = "https://sctapi.ftqq.com/".to_owned();
                url.append(key.as_str());
                url.append(".send");
                let mut v = Vec::new();
                v.push(entry("title", text(title)));
                v.push(entry("desp", text(body)));
                let r = WebhookRequest { url, body: Json::Object(v) };
                assert(fields(r.body) =~= v@);
                r
            },
            WechatService::PushPlus { token } => {
                let mut v = Vec::new();
                v.push(entry("token", text(token.as_str())));
                v.push(entry("title", text(title)));
                v.push(entry("content", text(body)));
                v.push(entry("template", text(template)));
                let r = WebhookRequest {
                    url: "http://www.pushplus.plus/send".to_owned(),
                    body: Json::Object(v),
                };
                assert(fields(r.body) =~= v@);
                r
            },
        }
    }

    pub fn send_text(&self, msg: &str) -> (r: WebhookRequest)
        ensures
            r.url@ == wechat_url(self.service()),
            wechat_post_ok(self.service(), r.body, "通知"@, msg@, "txt"@),
    {
        self.post("通知", msg, "txt")
    }

    /// The destination has no colour, so `color` is not used.
    pub fn send_card(&self, title: &str, content: &str, color: &str, actions: Vec<Action>) -> (r:
        WebhookRequest)
        ensures
            r.url@ == wechat_url(self.service()),
            wechat_post_ok(
                self.service(),
                r.body,
                title@,
                wechat_card_body(content@, actions@),
                "markdown"@,
            ),
    {
        let mut body = content.to_owned();
        if actions.len() > 0 {
            body.append("\n\n---\n");
            let mut i: usize = 0;
            while i < actions.len()
                invariant
                    i <= actions.len(),
                    body@ == content@ + "\n\n---\n"@ + action_links(actions@.take(i as int)),
                decreases actions.len() - i,
            {
                let a = &actions[i];
                body.append("[");
                body.append(a.text.as_str());
                body.append("](");
                body.append(a.url.as_str());
                body.append(")\n");
                proof {
                    let s = actions@.take(i + 1);
                    assert(s.drop_last() =~= actions@.take(i as int));
                    assert(s.last() == actions@[i as int]);
                }
                i = i + 1;
            }
            assert(actions@.take(actions@.len() as int) =~= actions@);
        }
        self.post(title, body.as_str(), "markdown")
    }
}

} // verus!

verus! {

/// A configured destination of any of the three families.
pub enum Notifier {
    Teams(TeamsNotifier),
    Feishu(FeishuNotifier),
    Wechat(WechatNotifier),
}

impl Notifier {
    /// `r` is the card request this destination posts for the given message.
    pub open spec fn card_ok(
        &self,
        title: Seq<char>,
        content: Seq<char>,
        color: Seq<char>,
        actions: Seq<Action>,
        r: WebhookRequest,
    ) -> bool {
        match self {
            Notifier::Teams(n) => r.url@ == n.webhook() && teams_card_ok(
                r.body,
                title,
                content,
                color,
                actions,
            ),
            Notifier::Feishu(n) => r.url@ == n.webhook() && feishu_card_ok(
                r.body,
                title,
                content,
                color,
                actions,
            ),
            Notifier::Wechat(n) => r.url@ == wechat_url(n.service()) && wechat_post_ok(
                n.service(),
                r.body,
                title,
                wechat_card_body(content, actions),
                "markdown"@,
            ),
        }
    }

    /// `r` is the plain-text request this destination posts for `msg`.
    pub open spec fn text_ok(&self, msg: Seq<char>, r: WebhookRequest) -> bool {
        match self {
            Notifier::Teams(n) => r.url@ == n.webhook() && teams_text_ok(r.body, msg),
            Notifier::Feishu(n) => r.url@ == n.webhook() && feishu_text_ok(r.body, msg),
            Notifier::Wechat(n) => r.url@ == wechat_url(n.service()) && wechat_post_ok(
                n.service(),
                r.body,
                "通知"@,
                msg,
                "txt"@,
            ),
        }
    }

    pub fn send_text(&self, msg: &str) -> (r: WebhookRequest)
        ensures
            self.text_ok(msg@, r),
    {
        match self {
            Notifier::Teams(n) => n.send_text(msg),
            Notifier::Feishu(n) => n.send_text(msg),
            Notifier::Wechat(n) => n.send_text(msg),
        }
    }

    pub fn send_card(&self, title: &str, content: &str, color: &str, actions: Vec<Action>) -> (r:
        WebhookRequest)
        ensures
            self.card_ok(title@, content@, color@, actions@, r),
    {
        match self {
            Notifier::Teams(n) => n.send_card(title, content, color, actions),
            Notifier::Feishu(n) => n.send_card(title, content, color, actions),
            Notifier::Wechat(n) => n.send_card(title, content, color, actions),
        }
    }
}

} // verus!
