//! What each channel sends and how each answer is read, stated over the
//! inputs: the configuration, the message and the reply.
use vstd::prelude::*;
use vstd::string::*;
use crate::json::{field_of, json_get, JsonView};
use crate::notify::channel::ChannelType;
use crate::notify::config::{
    config_problem, BarkConfig, ChannelConfig, DingtalkAppConfig, DingtalkRobotConfig, EmailConfig,
    FeishuRobotConfig, PushplusConfig, Serverchan3Config, TelegramConfig, WebhookConfig, WecomAppConfig,
    WecomRobotConfig,
};
use crate::codec::{base64_std, spec_hmac_sha256, url_component};
use crate::text::{decimal, list_items, uppercase};
use vstd::utf8::encode_utf8;
use crate::notify::delivery::{reply_spec, start_spec, text_member, Clock, Pending, StepView};
use crate::json::{json_string_literal, key_less, member_of, object_text, put_sorted, spec_parse_json, JsonDocumentView, JsonKindView};
use crate::notify::delivery::{document_accepts, finish_spec, provider_accepts};
use crate::notify::error::DeliveryReceiptView;
use crate::notify::channel::channel_name;
use crate::text::{collapse_ws, compact_spec};
use crate::text::parse_i64_spec;
use crate::notify::error::NotifyErrorView;
use crate::notify::error::NotificationMessage;
use crate::notify::request::{base_url, HttpMethod, HttpRequestView, RequestBodyView};
use crate::text::{is_blank, trim};

verus! {

/// The member `key` of the JSON payload a request sends, if it sends one.
pub open spec fn payload_get(r: HttpRequestView, key: Seq<char>) -> Option<JsonView> {
    match r.body {
        RequestBodyView::Json(v) => json_get(v, key),
        _ => None,
    }
}

/// The form fields a request sends, if it sends a form.
pub open spec fn form_of(r: HttpRequestView) -> Seq<(Seq<char>, Seq<char>)> {
    match r.body {
        RequestBodyView::Form(f) => f,
        _ => seq![],
    }
}

/// The member `inner` of the payload's member `outer`.
pub open spec fn payload_get2(r: HttpRequestView, outer: Seq<char>, inner: Seq<char>) -> Option<JsonView> {
    match payload_get(r, outer) {
        Some(v) => json_get(v, inner),
        None => None,
    }
}

/// The first member named `key` is the one at `i` when no member before
/// it has that name.
pub proof fn lemma_field_at(f: Seq<(Seq<char>, JsonView)>, i: int, key: Seq<char>)
    requires
        0 <= i < f.len(),
        f[i].0 == key,
        forall|j: int| 0 <= j < i ==> (#[trigger] f[j]).0 != key,
    ensures
        field_of(f, key) == Some(f[i].1),
    decreases i,
{
    if i > 0 {
        assert forall|j: int| 0 <= j < i - 1 implies (#[trigger] f.drop_first()[j]).0 != key by {
            assert(f.drop_first()[j] == f[j + 1]);
        }
        lemma_field_at(f.drop_first(), i - 1, key);
    }
}

/// No member is found when none has the name.
pub proof fn lemma_field_absent(f: Seq<(Seq<char>, JsonView)>, key: Seq<char>)
    requires
        forall|j: int| 0 <= j < f.len() ==> (#[trigger] f[j]).0 != key,
    ensures
        field_of(f, key) is None,
    decreases f.len(),
{
    if f.len() > 0 {
        assert forall|j: int| 0 <= j < f.len() - 1 implies (#[trigger] f.drop_first()[j]).0 != key by {
            assert(f.drop_first()[j] == f[j + 1]);
        }
        lemma_field_absent(f.drop_first(), key);
    }
}

/// Adding a member at the end leaves every member found before found, and
/// makes the new member found when its name was not there yet.
pub proof fn lemma_field_of_push(f: Seq<(Seq<char>, JsonView)>, e: (Seq<char>, JsonView), key: Seq<char>)
    ensures
        field_of(f.push(e), key) == (if field_of(f, key) is Some {
            field_of(f, key)
        } else if e.0 == key {
            Some(e.1)
        } else {
            None::<JsonView>
        }),
    decreases f.len(),
{
    if f.len() > 0 {
        assert(f.push(e)[0] == f[0]);
        assert(f.push(e).drop_first() =~= f.drop_first().push(e));
        lemma_field_of_push(f.drop_first(), e, key);
    } else {
        assert(f.push(e)[0] == e);
        assert(f.push(e).drop_first() =~= Seq::<(Seq<char>, JsonView)>::empty());
        assert(field_of(Seq::<(Seq<char>, JsonView)>::empty(), key) is None);
    }
}

/// An optional member, added only when its value is not blank, as its
/// trimmed text.
pub proof fn lemma_field_of_put(f: Seq<(Seq<char>, JsonView)>, k: Seq<char>, v: Seq<char>, key: Seq<char>)
    ensures
        field_of(crate::notify::request::put_spec(f, k, v), key) == (if field_of(f, key) is Some {
            field_of(f, key)
        } else if k == key && !is_blank(v) {
            Some(JsonView::Str(trim(v)))
        } else {
            None::<JsonView>
        }),
{
    if !is_blank(v) {
        lemma_field_of_push(f, (k, JsonView::Str(trim(v))), key);
    }
}

/// A checked Telegram configuration sends the message body as the text, to
/// the configured chat, through the bot's `sendMessage` URL; a parse mode
/// goes along only when one is set.
pub proof fn lemma_telegram_sends_the_body(c: TelegramConfig, m: NotificationMessage, clock: Clock)
    requires
        config_problem(ChannelConfig::Telegram(c)) is None,
        m.custom_body is None,
    ensures
        (start_spec(ChannelConfig::Telegram(c), m, clock) matches StepView::Send { request: r, then }
            && then == (Pending::Answer { channel: ChannelType::Telegram, inspect: true })
            && r.method == HttpMethod::Post
            && r.url == base_url(c.api_base_url@) + "/bot"@ + trim(c.bot_token@) + "/sendMessage"@
            && payload_get(r, "chat_id"@) == Some(JsonView::Str(trim(c.chat_id@)))
            && payload_get(r, "text"@) == Some(JsonView::Str(m.body@))
            && payload_get(r, "disable_web_page_preview"@) == Some(
            JsonView::Bool(c.disable_web_page_preview),
        ) && payload_get(r, "parse_mode"@) == (if is_blank(c.parse_mode@) {
            None
        } else {
            Some(JsonView::Str(trim(c.parse_mode@)))
        })),
{
    reveal_strlit("chat_id");
    reveal_strlit("text");
    reveal_strlit("disable_web_page_preview");
    reveal_strlit("parse_mode");
    let r = crate::notify::request::telegram_view(c, m);
    assert(start_spec(ChannelConfig::Telegram(c), m, clock) == (StepView::Send {
        request: r,
        then: Pending::Answer { channel: ChannelType::Telegram, inspect: true },
    }));
    let f = seq![
        ("chat_id"@, JsonView::Str(trim(c.chat_id@))),
        ("text"@, JsonView::Str(m.body@)),
        ("disable_web_page_preview"@, JsonView::Bool(c.disable_web_page_preview)),
    ];
    let g = crate::notify::request::put_spec(f, "parse_mode"@, c.parse_mode@);
    assert(r.body == RequestBodyView::Json(JsonView::Object(g)));
    assert(g[0] == f[0] && g[1] == f[1] && g[2] == f[2]);
    assert("chat_id"@.len() == 7 && "text"@.len() == 4 && "disable_web_page_preview"@.len() == 24);
    assert("chat_id"@ != "text"@);
    assert("chat_id"@ != "disable_web_page_preview"@);
    assert("text"@ != "disable_web_page_preview"@);
    lemma_field_at(g, 0, "chat_id"@);
    lemma_field_at(g, 1, "text"@);
    lemma_field_at(g, 2, "disable_web_page_preview"@);
    if is_blank(c.parse_mode@) {
        lemma_field_absent(g, "parse_mode"@);
    } else {
        lemma_field_at(g, 3, "parse_mode"@);
    }
}

/// A WeCom app first fetches an access token with the corp id and secret,
/// and keeps the message body for the message that follows.
pub proof fn lemma_wecom_app_fetches_a_token(c: WecomAppConfig, m: NotificationMessage, clock: Clock)
    requires
        config_problem(ChannelConfig::WecomApp(c)) is None,
        m.custom_body is None,
    ensures
        (start_spec(ChannelConfig::WecomApp(c), m, clock) matches StepView::Send { request: r, then }
            && then == (Pending::WecomToken { config: c, body: m.body })
            && r.method == HttpMethod::Get
            && r.url == base_url(c.api_base_url@) + "/cgi-bin/gettoken"@
            && r.query == seq![("corpid"@, trim(c.corp_id@)), ("corpsecret"@, trim(c.secret@))]),
{
}

/// With an access token in the answer, a WeCom app sends the message body
/// as text to the configured user (every member, `@all`, only when no user
/// is configured), party and tag, as the configured agent, with the token.
pub proof fn lemma_wecom_app_message(
    c: WecomAppConfig,
    text: String,
    status: u16,
    reply: Seq<char>,
    token: Seq<char>,
    agent: int,
)
    requires
        spec_parse_json(reply) matches Ok(d) && text_member(d, "access_token"@) == Some(token),
        parse_i64_spec(trim(c.agent_id@)) == Some(agent),
    ensures
        (reply_spec(Pending::WecomToken { config: c, body: text }, status, reply) matches StepView::Send {
            request: r,
            then,
        } && then == (Pending::Answer { channel: ChannelType::WecomApp, inspect: true })
            && r.method == HttpMethod::Post
            && r.url == base_url(c.api_base_url@) + "/cgi-bin/message/send"@
            && r.query == seq![("access_token"@, token)]
            && payload_get(r, "touser"@) == Some(JsonView::Str(if is_blank(c.to_user@) {
            "@all"@
        } else {
            trim(c.to_user@)
        })) && payload_get(r, "toparty"@) == Some(JsonView::Str(trim(c.to_party@)))
            && payload_get(r, "totag"@) == Some(JsonView::Str(trim(c.to_tag@)))
            && payload_get(r, "msgtype"@) == Some(JsonView::Str("text"@))
            && payload_get(r, "agentid"@) == Some(JsonView::Int(agent))
            && payload_get2(r, "text"@, "content"@) == Some(JsonView::Str(text@))
            && payload_get(r, "safe"@) == Some(JsonView::Int(if c.safe { 1 } else { 0 }))),
{
    reveal_strlit("touser");
    reveal_strlit("toparty");
    reveal_strlit("totag");
    reveal_strlit("msgtype");
    reveal_strlit("agentid");
    reveal_strlit("text");
    reveal_strlit("safe");
    assert("touser"@.len() == 6 && "toparty"@.len() == 7);
    assert("touser"@ != "toparty"@);
    assert("touser"@.len() == 6 && "totag"@.len() == 5);
    assert("touser"@ != "totag"@);
    assert("touser"@.len() == 6 && "msgtype"@.len() == 7);
    assert("touser"@ != "msgtype"@);
    assert("touser"@.len() == 6 && "agentid"@.len() == 7);
    assert("touser"@ != "agentid"@);
    assert("touser"@.len() == 6 && "text"@.len() == 4);
    assert("touser"@ != "text"@);
    assert("touser"@.len() == 6 && "safe"@.len() == 4);
    assert("touser"@ != "safe"@);
    assert("toparty"@.len() == 7 && "totag"@.len() == 5);
    assert("toparty"@ != "totag"@);
    assert("toparty"@[0] == 't' && "msgtype"@[0] == 'm');
    assert("toparty"@ != "msgtype"@);
    assert("toparty"@[0] == 't' && "agentid"@[0] == 'a');
    assert("toparty"@ != "agentid"@);
    assert("toparty"@.len() == 7 && "text"@.len() == 4);
    assert("toparty"@ != "text"@);
    assert("toparty"@.len() == 7 && "safe"@.len() == 4);
    assert("toparty"@ != "safe"@);
    assert("totag"@.len() == 5 && "msgtype"@.len() == 7);
    assert("totag"@ != "msgtype"@);
    assert("totag"@.len() == 5 && "agentid"@.len() == 7);
    assert("totag"@ != "agentid"@);
    assert("totag"@.len() == 5 && "text"@.len() == 4);
    assert("totag"@ != "text"@);
    assert("totag"@.len() == 5 && "safe"@.len() == 4);
    assert("totag"@ != "safe"@);
    assert("msgtype"@[0] == 'm' && "agentid"@[0] == 'a');
    assert("msgtype"@ != "agentid"@);
    assert("msgtype"@.len() == 7 && "text"@.len() == 4);
    assert("msgtype"@ != "text"@);
    assert("msgtype"@.len() == 7 && "safe"@.len() == 4);
    assert("msgtype"@ != "safe"@);
    assert("agentid"@.len() == 7 && "text"@.len() == 4);
    assert("agentid"@ != "text"@);
    assert("agentid"@.len() == 7 && "safe"@.len() == 4);
    assert("agentid"@ != "safe"@);
    assert("text"@[0] == 't' && "safe"@[0] == 's');
    assert("text"@ != "safe"@);
    let g = match crate::notify::request::wecom_payload(c, text@, agent) {
        JsonView::Object(g) => g,
        _ => seq![],
    };
    lemma_field_at(g, 0, "touser"@);
    lemma_field_at(g, 1, "toparty"@);
    lemma_field_at(g, 2, "totag"@);
    lemma_field_at(g, 3, "msgtype"@);
    lemma_field_at(g, 4, "agentid"@);
    lemma_field_at(g, 5, "text"@);
    lemma_field_at(g, 6, "safe"@);
    reveal_strlit("content");
    lemma_field_at(seq![("content"@, JsonView::Str(text@))], 0, "content"@);
}

/// A WeCom agent id that is not a number fails once the token has come.
pub proof fn lemma_wecom_app_agent_must_be_numeric(
    c: WecomAppConfig,
    text: String,
    status: u16,
    reply: Seq<char>,
)
    requires
        spec_parse_json(reply) matches Ok(d) && text_member(d, "access_token"@) is Some,
        parse_i64_spec(trim(c.agent_id@)) is None,
    ensures
        reply_spec(Pending::WecomToken { config: c, body: text }, status, reply) == StepView::Done(
            Err(NotifyErrorView::InvalidConfig("WeCom agent_id must be numeric"@)),
        ),
{
}

/// A token answer without a token fails with the provider's refusal, and an
/// answer that is not JSON fails as a transport error; neither sends the
/// message.
pub proof fn lemma_token_failures(then: Pending, status: u16, reply: Seq<char>)
    requires
        !(then is Answer),
    ensures
        spec_parse_json(reply) is Err ==> reply_spec(then, status, reply) == StepView::Done(
            Err(NotifyErrorView::Request("error decoding response body"@)),
        ),
        spec_parse_json(reply) matches Ok(d) && (then is WecomToken ==> text_member(d, "access_token"@)
            is None) && (then is DingtalkToken ==> text_member(d, "accessToken"@) is None)
            ==> reply_spec(then, status, reply) matches StepView::Done(Err(NotifyErrorView::Provider(_))),
{
}

/// Where a robot posts: the configured webhook URL, or else the provider's
/// URL for the token.
pub open spec fn robot_target(url: Seq<char>, token: Seq<char>, prefix: Seq<char>) -> Seq<char> {
    if !is_blank(url) {
        trim(url)
    } else {
        prefix + url_component(token)
    }
}

/// The HMAC-SHA256 of `msg` under `key`, both as UTF-8, in standard Base64.
pub open spec fn signature_b64(key: Seq<char>, msg: Seq<char>) -> Seq<char> {
    base64_std(spec_hmac_sha256(encode_utf8(key), encode_utf8(msg)))
}

/// A checked DingTalk robot configuration posts the message body as text
/// to its robot, signing the URL with the millisecond time and the secret
/// when one is set, and names the mobiles to mention and whether to
/// mention everyone.
pub proof fn lemma_dingtalk_robot_sends_the_body(c: DingtalkRobotConfig, m: NotificationMessage, clock: Clock)
    requires
        config_problem(ChannelConfig::DingtalkRobot(c)) is None,
        m.custom_body is None,
    ensures
        (start_spec(ChannelConfig::DingtalkRobot(c), m, clock) matches StepView::Send { request: r, then }
            && then == (Pending::Answer { channel: ChannelType::DingtalkRobot, inspect: true })
            && r.method == HttpMethod::Post
            && r.url == (if is_blank(c.secret@) {
            robot_target(c.webhook_url@, c.access_token@, "https://oapi.dingtalk.com/robot/send?access_token="@)
        } else {
            robot_target(c.webhook_url@, c.access_token@, "https://oapi.dingtalk.com/robot/send?access_token="@)
                + "&timestamp="@ + decimal(clock.millis as nat) + "&sign="@ + url_component(
                signature_b64(trim(c.secret@), decimal(clock.millis as nat) + "\n"@ + trim(c.secret@)),
            )
        }) && payload_get(r, "msgtype"@) == Some(JsonView::Str("text"@))
            && payload_get2(r, "text"@, "content"@) == Some(JsonView::Str(m.body@))
            && payload_get2(r, "at"@, "isAtAll"@) == Some(JsonView::Bool(c.at_all))
            && payload_get2(r, "at"@, "atMobiles"@) == Some(
            JsonView::Array(
                list_items(c.at_mobiles@, seq![',', ';', '\n']).map_values(|s: Seq<char>| JsonView::Str(s)),
            ),
        )),
{
    reveal_strlit("msgtype");
    reveal_strlit("text");
    reveal_strlit("at");
    reveal_strlit("content");
    reveal_strlit("atMobiles");
    reveal_strlit("isAtAll");
    assert("msgtype"@.len() == 7 && "text"@.len() == 4);
    assert("msgtype"@ != "text"@);
    assert("msgtype"@.len() == 7 && "at"@.len() == 2);
    assert("msgtype"@ != "at"@);
    assert("msgtype"@[0] == 'm' && "content"@[0] == 'c');
    assert("msgtype"@ != "content"@);
    assert("msgtype"@.len() == 7 && "atMobiles"@.len() == 9);
    assert("msgtype"@ != "atMobiles"@);
    assert("msgtype"@[0] == 'm' && "isAtAll"@[0] == 'i');
    assert("msgtype"@ != "isAtAll"@);
    assert("text"@.len() == 4 && "at"@.len() == 2);
    assert("text"@ != "at"@);
    assert("text"@.len() == 4 && "content"@.len() == 7);
    assert("text"@ != "content"@);
    assert("text"@.len() == 4 && "atMobiles"@.len() == 9);
    assert("text"@ != "atMobiles"@);
    assert("text"@.len() == 4 && "isAtAll"@.len() == 7);
    assert("text"@ != "isAtAll"@);
    assert("at"@.len() == 2 && "content"@.len() == 7);
    assert("at"@ != "content"@);
    assert("at"@.len() == 2 && "atMobiles"@.len() == 9);
    assert("at"@ != "atMobiles"@);
    assert("at"@.len() == 2 && "isAtAll"@.len() == 7);
    assert("at"@ != "isAtAll"@);
    assert("content"@.len() == 7 && "atMobiles"@.len() == 9);
    assert("content"@ != "atMobiles"@);
    assert("content"@[0] == 'c' && "isAtAll"@[0] == 'i');
    assert("content"@ != "isAtAll"@);
    assert("atMobiles"@.len() == 9 && "isAtAll"@.len() == 7);
    assert("atMobiles"@ != "isAtAll"@);
    let g = match crate::notify::request::dingtalk_robot_payload(c, m) {
        JsonView::Object(g) => g,
        _ => seq![],
    };
    lemma_field_at(g, 0, "msgtype"@);
    lemma_field_at(g, 1, "text"@);
    lemma_field_at(g, 2, "at"@);
    let at = match g[2].1 {
        JsonView::Object(a) => a,
        _ => seq![],
    };
    lemma_field_at(at, 0, "atMobiles"@);
    lemma_field_at(at, 1, "isAtAll"@);
    lemma_field_at(seq![("content"@, JsonView::Str(m.body@))], 0, "content"@);
}

/// A checked WeCom robot configuration posts the message body as text to
/// its robot.
pub proof fn lemma_wecom_robot_sends_the_body(c: WecomRobotConfig, m: NotificationMessage, clock: Clock)
    requires
        config_problem(ChannelConfig::WecomRobot(c)) is None,
        m.custom_body is None,
    ensures
        (start_spec(ChannelConfig::WecomRobot(c), m, clock) matches StepView::Send { request: r, then }
            && then == (Pending::Answer { channel: ChannelType::WecomRobot, inspect: true })
            && r.method == HttpMethod::Post
            && r.url == robot_target(c.webhook_url@, c.key@, "https://qyapi.weixin.qq.com/cgi-bin/webhook/send?key="@)
            && payload_get(r, "msgtype"@) == Some(JsonView::Str("text"@))
            && payload_get2(r, "text"@, "content"@) == Some(JsonView::Str(m.body@))),
{
    reveal_strlit("msgtype");
    reveal_strlit("text");
    reveal_strlit("content");
    assert("msgtype"@.len() == 7 && "text"@.len() == 4);
    let g = match crate::notify::request::text_message(m.body@) {
        JsonView::Object(g) => g,
        _ => seq![],
    };
    lemma_field_at(g, 0, "msgtype"@);
    lemma_field_at(g, 1, "text"@);
    lemma_field_at(seq![("content"@, JsonView::Str(m.body@))], 0, "content"@);
}

/// A checked Feishu robot configuration posts the message body as text to
/// its robot; with a secret it adds the second-resolution time and the
/// signature of that time and the secret.
pub proof fn lemma_feishu_sends_the_body(c: FeishuRobotConfig, m: NotificationMessage, clock: Clock)
    requires
        config_problem(ChannelConfig::FeishuRobot(c)) is None,
        m.custom_body is None,
    ensures
        (start_spec(ChannelConfig::FeishuRobot(c), m, clock) matches StepView::Send { request: r, then }
            && then == (Pending::Answer { channel: ChannelType::FeishuRobot, inspect: true })
            && r.method == HttpMethod::Post
            && r.url == robot_target(c.webhook_url@, c.token@, "https://open.feishu.cn/open-apis/bot/v2/hook/"@)
            && payload_get(r, "msg_type"@) == Some(JsonView::Str("text"@))
            && payload_get2(r, "content"@, "text"@) == Some(JsonView::Str(m.body@))
            && payload_get(r, "timestamp"@) == (if is_blank(c.secret@) {
            None
        } else {
            Some(JsonView::Str(decimal(clock.seconds as nat)))
        }) && payload_get(r, "sign"@) == (if is_blank(c.secret@) {
            None
        } else {
            Some(
                JsonView::Str(
                    base64_std(
                        spec_hmac_sha256(
                            encode_utf8(decimal(clock.seconds as nat) + "\n"@ + trim(c.secret@)),
                            Seq::empty(),
                        ),
                    ),
                ),
            )
        })),
{
    reveal_strlit("msg_type");
    reveal_strlit("content");
    reveal_strlit("text");
    reveal_strlit("timestamp");
    reveal_strlit("sign");
    assert("msg_type"@.len() == 8 && "content"@.len() == 7);
    assert("msg_type"@ != "content"@);
    assert("msg_type"@.len() == 8 && "text"@.len() == 4);
    assert("msg_type"@ != "text"@);
    assert("msg_type"@.len() == 8 && "timestamp"@.len() == 9);
    assert("msg_type"@ != "timestamp"@);
    assert("msg_type"@.len() == 8 && "sign"@.len() == 4);
    assert("msg_type"@ != "sign"@);
    assert("content"@.len() == 7 && "text"@.len() == 4);
    assert("content"@ != "text"@);
    assert("content"@.len() == 7 && "timestamp"@.len() == 9);
    assert("content"@ != "timestamp"@);
    assert("content"@.len() == 7 && "sign"@.len() == 4);
    assert("content"@ != "sign"@);
    assert("text"@.len() == 4 && "timestamp"@.len() == 9);
    assert("text"@ != "timestamp"@);
    assert("text"@[0] == 't' && "sign"@[0] == 's');
    assert("text"@ != "sign"@);
    assert("timestamp"@.len() == 9 && "sign"@.len() == 4);
    assert("timestamp"@ != "sign"@);
    let g = match crate::notify::request::feishu_payload(c, m, clock.seconds) {
        JsonView::Object(g) => g,
        _ => seq![],
    };
    lemma_field_at(g, 0, "msg_type"@);
    lemma_field_at(g, 1, "content"@);
    lemma_field_at(seq![("text"@, JsonView::Str(m.body@))], 0, "text"@);
    if is_blank(c.secret@) {
        lemma_field_absent(g, "timestamp"@);
        lemma_field_absent(g, "sign"@);
    } else {
        lemma_field_at(g, 2, "timestamp"@);
        lemma_field_at(g, 3, "sign"@);
    }
}

/// How each provider's JSON answer is read. A refusal is a reply whose
/// refusal field holds a value other than the provider's success value:
/// Bark's `code` other than 200; PushPlus's and ServerChan's `code` other
/// than 0 and 200; the `errcode` of WeCom and the DingTalk robot other than
/// 0; Feishu's `code` other than 0, or, only when there is no `code`, its
/// `StatusCode` other than 0; Telegram's `ok` false; the DingTalk app's
/// `code` a non-empty string. A reply without that field is accepted, and
/// the webhook and e-mail channels accept every reply.
pub proof fn lemma_provider_refusals(d: JsonDocumentView, v: int, b: bool, t: Seq<char>)
    ensures
        member_of(d.members, "code"@) == Some(JsonKindView::Integer(v)) ==> (document_accepts(ChannelType::Bark, d) <==> v == 200),
        member_of(d.members, "code"@) is None ==> document_accepts(ChannelType::Bark, d),
        member_of(d.members, "code"@) == Some(JsonKindView::Integer(v)) ==> (document_accepts(ChannelType::Pushplus, d) <==> (v == 0 || v == 200)),
        member_of(d.members, "code"@) is None ==> document_accepts(ChannelType::Pushplus, d),
        member_of(d.members, "code"@) == Some(JsonKindView::Integer(v)) ==> (document_accepts(ChannelType::Serverchan3, d) <==> (v == 0 || v == 200)),
        member_of(d.members, "code"@) is None ==> document_accepts(ChannelType::Serverchan3, d),
        member_of(d.members, "errcode"@) == Some(JsonKindView::Integer(v)) ==> (document_accepts(ChannelType::WecomApp, d) <==> v == 0),
        member_of(d.members, "errcode"@) == Some(JsonKindView::Integer(v)) ==> (document_accepts(ChannelType::WecomRobot, d) <==> v == 0),
        member_of(d.members, "errcode"@) == Some(JsonKindView::Integer(v)) ==> (document_accepts(ChannelType::DingtalkRobot, d) <==> v == 0),
        member_of(d.members, "errcode"@) is None ==> document_accepts(ChannelType::WecomApp, d)
            && document_accepts(ChannelType::WecomRobot, d) && document_accepts(ChannelType::DingtalkRobot, d),
        member_of(d.members, "code"@) == Some(JsonKindView::Integer(v)) ==> (document_accepts(ChannelType::FeishuRobot, d) <==> v == 0),
        member_of(d.members, "code"@) is Some && !(member_of(d.members, "code"@) matches Some(JsonKindView::Integer(_))) ==> document_accepts(ChannelType::FeishuRobot, d),
        member_of(d.members, "code"@) is None && member_of(d.members, "StatusCode"@) == Some(JsonKindView::Integer(v)) ==> (document_accepts(ChannelType::FeishuRobot, d) <==> v == 0),
        member_of(d.members, "code"@) is None && member_of(d.members, "StatusCode"@) is None ==> document_accepts(ChannelType::FeishuRobot, d),
        member_of(d.members, "ok"@) == Some(JsonKindView::Bool(b)) ==> (document_accepts(ChannelType::Telegram, d) <==> b),
        member_of(d.members, "ok"@) is None ==> document_accepts(ChannelType::Telegram, d),
        member_of(d.members, "code"@) == Some(JsonKindView::Text(t)) ==> (document_accepts(ChannelType::DingtalkApp, d) <==> t.len() == 0),
        member_of(d.members, "code"@) is None ==> document_accepts(ChannelType::DingtalkApp, d),
        document_accepts(ChannelType::Webhook, d),
        document_accepts(ChannelType::Email, d),
{
}

/// A reply is checked through the JSON it parses to; a reply that is not
/// JSON is accepted by every provider.
pub proof fn lemma_reply_is_read_as_json(ch: ChannelType, body: Seq<char>)
    ensures
        spec_parse_json(body) matches Ok(d) ==> (provider_accepts(ch, body) <==> document_accepts(ch, d)),
        spec_parse_json(body) is Err ==> provider_accepts(ch, body),
{
}

/// A Bark configuration is accepted exactly when none of its required
/// fields (server_url, device_key) is blank; otherwise the first blank one, in that
/// order, is named in the complaint.
pub proof fn lemma_bark_required_fields(c: BarkConfig)
    ensures
        config_problem(ChannelConfig::Bark(c)) is None <==> (!is_blank(c.server_url@) && !is_blank(c.device_key@)),
        is_blank(c.server_url@) ==> config_problem(ChannelConfig::Bark(c)) == Some("Bark server URL"@ + " is required"@),
        !is_blank(c.server_url@) && is_blank(c.device_key@) ==> config_problem(ChannelConfig::Bark(c)) == Some("Bark device key"@ + " is required"@),
{
}

/// A Pushplus configuration is accepted exactly when none of its required
/// fields (token) is blank; otherwise the first blank one, in that
/// order, is named in the complaint.
pub proof fn lemma_pushplus_required_fields(c: PushplusConfig)
    ensures
        config_problem(ChannelConfig::Pushplus(c)) is None <==> (!is_blank(c.token@)),
        is_blank(c.token@) ==> config_problem(ChannelConfig::Pushplus(c)) == Some("PushPlus token"@ + " is required"@),
{
}

/// A WecomApp configuration is accepted exactly when none of its required
/// fields (corp_id, agent_id, secret) is blank; otherwise the first blank one, in that
/// order, is named in the complaint.
pub proof fn lemma_wecom_app_required_fields(c: WecomAppConfig)
    ensures
        config_problem(ChannelConfig::WecomApp(c)) is None <==> (!is_blank(c.corp_id@) && !is_blank(c.agent_id@) && !is_blank(c.secret@)),
        is_blank(c.corp_id@) ==> config_problem(ChannelConfig::WecomApp(c)) == Some("WeCom CorpID"@ + " is required"@),
        !is_blank(c.corp_id@) && is_blank(c.agent_id@) ==> config_problem(ChannelConfig::WecomApp(c)) == Some("WeCom AgentID"@ + " is required"@),
        !is_blank(c.corp_id@) && !is_blank(c.agent_id@) && is_blank(c.secret@) ==> config_problem(ChannelConfig::WecomApp(c)) == Some("WeCom secret"@ + " is required"@),
{
}

/// A DingtalkApp configuration is accepted exactly when none of its required
/// fields (app_key, app_secret, open_conversation_id) is blank; otherwise the first blank one, in that
/// order, is named in the complaint.
pub proof fn lemma_dingtalk_app_required_fields(c: DingtalkAppConfig)
    ensures
        config_problem(ChannelConfig::DingtalkApp(c)) is None <==> (!is_blank(c.app_key@) && !is_blank(c.app_secret@) && !is_blank(c.open_conversation_id@)),
        is_blank(c.app_key@) ==> config_problem(ChannelConfig::DingtalkApp(c)) == Some("DingTalk AppKey"@ + " is required"@),
        !is_blank(c.app_key@) && is_blank(c.app_secret@) ==> config_problem(ChannelConfig::DingtalkApp(c)) == Some("DingTalk AppSecret"@ + " is required"@),
        !is_blank(c.app_key@) && !is_blank(c.app_secret@) && is_blank(c.open_conversation_id@) ==> config_problem(ChannelConfig::DingtalkApp(c)) == Some("DingTalk OpenConversationId"@ + " is required"@),
{
}

/// A Telegram configuration is accepted exactly when none of its required
/// fields (bot_token, chat_id) is blank; otherwise the first blank one, in that
/// order, is named in the complaint.
pub proof fn lemma_telegram_required_fields(c: TelegramConfig)
    ensures
        config_problem(ChannelConfig::Telegram(c)) is None <==> (!is_blank(c.bot_token@) && !is_blank(c.chat_id@)),
        is_blank(c.bot_token@) ==> config_problem(ChannelConfig::Telegram(c)) == Some("Telegram bot token"@ + " is required"@),
        !is_blank(c.bot_token@) && is_blank(c.chat_id@) ==> config_problem(ChannelConfig::Telegram(c)) == Some("Telegram chat ID"@ + " is required"@),
{
}

/// A Email configuration is accepted exactly when none of its required
/// fields (smtp_host, sender_address, receiver_addresses) is blank; otherwise the first blank one, in that
/// order, is named in the complaint.
pub proof fn lemma_email_required_fields(c: EmailConfig)
    ensures
        config_problem(ChannelConfig::Email(c)) is None <==> (!is_blank(c.smtp_host@) && !is_blank(c.sender_address@) && !is_blank(c.receiver_addresses@)),
        is_blank(c.smtp_host@) ==> config_problem(ChannelConfig::Email(c)) == Some("SMTP host"@ + " is required"@),
        !is_blank(c.smtp_host@) && is_blank(c.sender_address@) ==> config_problem(ChannelConfig::Email(c)) == Some("email sender"@ + " is required"@),
        !is_blank(c.smtp_host@) && !is_blank(c.sender_address@) && is_blank(c.receiver_addresses@) ==> config_problem(ChannelConfig::Email(c)) == Some("email receiver"@ + " is required"@),
{
}

/// A Serverchan3 configuration is accepted exactly when none of its required
/// fields (send_key) is blank; otherwise the first blank one, in that
/// order, is named in the complaint.
pub proof fn lemma_serverchan3_required_fields(c: Serverchan3Config)
    ensures
        config_problem(ChannelConfig::Serverchan3(c)) is None <==> (!is_blank(c.send_key@)),
        is_blank(c.send_key@) ==> config_problem(ChannelConfig::Serverchan3(c)) == Some("ServerChan SendKey"@ + " is required"@),
{
}

/// A robot configuration needs a webhook URL or else a token; a blank
/// pair is refused with the token's complaint.
pub proof fn lemma_robot_required_fields(w: WecomRobotConfig, d: DingtalkRobotConfig, f: FeishuRobotConfig)
    ensures
        config_problem(ChannelConfig::WecomRobot(w)) is None <==> (!is_blank(w.webhook_url@) || !is_blank(w.key@)),
        is_blank(w.webhook_url@) && is_blank(w.key@) ==> config_problem(ChannelConfig::WecomRobot(w)) == Some("WeCom robot key"@ + " is required"@),
        config_problem(ChannelConfig::DingtalkRobot(d)) is None <==> (!is_blank(d.webhook_url@) || !is_blank(d.access_token@)),
        is_blank(d.webhook_url@) && is_blank(d.access_token@) ==> config_problem(ChannelConfig::DingtalkRobot(d)) == Some("DingTalk access token"@ + " is required"@),
        config_problem(ChannelConfig::FeishuRobot(f)) is None <==> (!is_blank(f.webhook_url@) || !is_blank(f.token@)),
        is_blank(f.webhook_url@) && is_blank(f.token@) ==> config_problem(ChannelConfig::FeishuRobot(f)) == Some("Feishu robot token"@ + " is required"@),
{
}

/// A webhook configuration needs a URL and the method GET or POST, after
/// upper-casing; the URL is checked first.
pub proof fn lemma_webhook_required_fields(w: WebhookConfig)
    ensures
        config_problem(ChannelConfig::Webhook(w)) is None <==> (!is_blank(w.url@) && (uppercase(w.http_method@) == "GET"@ || uppercase(w.http_method@) == "POST"@)),
        is_blank(w.url@) ==> config_problem(ChannelConfig::Webhook(w)) == Some("Webhook URL"@ + " is required"@),
        !is_blank(w.url@) && uppercase(w.http_method@) != "GET"@ && uppercase(w.http_method@) != "POST"@ ==> config_problem(ChannelConfig::Webhook(w)) == Some("Webhook only supports GET and POST"@),
{
}

/// A checked Bark configuration posts the title and the message body to
/// the device's URL on the server; the group goes along only when set, the
/// copy fields only with automatic copy (the body is copied unless a copy
/// text is set), and the history flag always.
pub proof fn lemma_bark_sends_the_body(c: BarkConfig, m: NotificationMessage, clock: Clock)
    requires
        config_problem(ChannelConfig::Bark(c)) is None,
        m.custom_body is None,
    ensures
        (start_spec(ChannelConfig::Bark(c), m, clock) matches StepView::Send { request: r, then }
            && then == (Pending::Answer { channel: ChannelType::Bark, inspect: true })
            && r.method == HttpMethod::Post
            && r.url == base_url(c.server_url@) + "/"@ + url_component(c.device_key@)
            && payload_get(r, "title"@) == Some(JsonView::Str(m.title@))
            && payload_get(r, "body"@) == Some(JsonView::Str(m.body@))
            && payload_get(r, "group"@) == (if is_blank(c.group@) {
            None
        } else {
            Some(JsonView::Str(trim(c.group@)))
        }) && payload_get(r, "automaticallyCopy"@) == (if c.auto_copy {
            Some(JsonView::Int(1))
        } else {
            None
        }) && payload_get(r, "copy"@) == (if !c.auto_copy {
            None
        } else if is_blank(c.copy@) {
            Some(JsonView::Str(m.body@))
        } else {
            Some(JsonView::Str(c.copy@))
        }) && payload_get(r, "isArchive"@) == Some(JsonView::Int(if c.save_history { 1 } else { 0 }))),
{
    reveal_strlit("title");
    reveal_strlit("body");
    reveal_strlit("group");
    reveal_strlit("sound");
    reveal_strlit("level");
    reveal_strlit("icon");
    reveal_strlit("url");
    reveal_strlit("automaticallyCopy");
    reveal_strlit("copy");
    reveal_strlit("isArchive");
    assert("title"@.len() == 5 && "body"@.len() == 4);
    assert("title"@ != "body"@);
    assert("title"@[0] == 't' && "group"@[0] == 'g');
    assert("title"@ != "group"@);
    assert("title"@[0] == 't' && "sound"@[0] == 's');
    assert("title"@ != "sound"@);
    assert("title"@[0] == 't' && "level"@[0] == 'l');
    assert("title"@ != "level"@);
    assert("title"@.len() == 5 && "icon"@.len() == 4);
    assert("title"@ != "icon"@);
    assert("title"@.len() == 5 && "url"@.len() == 3);
    assert("title"@ != "url"@);
    assert("title"@.len() == 5 && "automaticallyCopy"@.len() == 17);
    assert("title"@ != "automaticallyCopy"@);
    assert("title"@.len() == 5 && "copy"@.len() == 4);
    assert("title"@ != "copy"@);
    assert("title"@.len() == 5 && "isArchive"@.len() == 9);
    assert("title"@ != "isArchive"@);
    assert("body"@.len() == 4 && "group"@.len() == 5);
    assert("body"@ != "group"@);
    assert("body"@.len() == 4 && "sound"@.len() == 5);
    assert("body"@ != "sound"@);
    assert("body"@.len() == 4 && "level"@.len() == 5);
    assert("body"@ != "level"@);
    assert("body"@[0] == 'b' && "icon"@[0] == 'i');
    assert("body"@ != "icon"@);
    assert("body"@.len() == 4 && "url"@.len() == 3);
    assert("body"@ != "url"@);
    assert("body"@.len() == 4 && "automaticallyCopy"@.len() == 17);
    assert("body"@ != "automaticallyCopy"@);
    assert("body"@[0] == 'b' && "copy"@[0] == 'c');
    assert("body"@ != "copy"@);
    assert("body"@.len() == 4 && "isArchive"@.len() == 9);
    assert("body"@ != "isArchive"@);
    assert("group"@[0] == 'g' && "sound"@[0] == 's');
    assert("group"@ != "sound"@);
    assert("group"@[0] == 'g' && "level"@[0] == 'l');
    assert("group"@ != "level"@);
    assert("group"@.len() == 5 && "icon"@.len() == 4);
    assert("group"@ != "icon"@);
    assert("group"@.len() == 5 && "url"@.len() == 3);
    assert("group"@ != "url"@);
    assert("group"@.len() == 5 && "automaticallyCopy"@.len() == 17);
    assert("group"@ != "automaticallyCopy"@);
    assert("group"@.len() == 5 && "copy"@.len() == 4);
    assert("group"@ != "copy"@);
    assert("group"@.len() == 5 && "isArchive"@.len() == 9);
    assert("group"@ != "isArchive"@);
    assert("sound"@[0] == 's' && "level"@[0] == 'l');
    assert("sound"@ != "level"@);
    assert("sound"@.len() == 5 && "icon"@.len() == 4);
    assert("sound"@ != "icon"@);
    assert("sound"@.len() == 5 && "url"@.len() == 3);
    assert("sound"@ != "url"@);
    assert("sound"@.len() == 5 && "automaticallyCopy"@.len() == 17);
    assert("sound"@ != "automaticallyCopy"@);
    assert("sound"@.len() == 5 && "copy"@.len() == 4);
    assert("sound"@ != "copy"@);
    assert("sound"@.len() == 5 && "isArchive"@.len() == 9);
    assert("sound"@ != "isArchive"@);
    assert("level"@.len() == 5 && "icon"@.len() == 4);
    assert("level"@ != "icon"@);
    assert("level"@.len() == 5 && "url"@.len() == 3);
    assert("level"@ != "url"@);
    assert("level"@.len() == 5 && "automaticallyCopy"@.len() == 17);
    assert("level"@ != "automaticallyCopy"@);
    assert("level"@.len() == 5 && "copy"@.len() == 4);
    assert("level"@ != "copy"@);
    assert("level"@.len() == 5 && "isArchive"@.len() == 9);
    assert("level"@ != "isArchive"@);
    assert("icon"@.len() == 4 && "url"@.len() == 3);
    assert("icon"@ != "url"@);
    assert("icon"@.len() == 4 && "automaticallyCopy"@.len() == 17);
    assert("icon"@ != "automaticallyCopy"@);
    assert("icon"@[0] == 'i' && "copy"@[0] == 'c');
    assert("icon"@ != "copy"@);
    assert("icon"@.len() == 4 && "isArchive"@.len() == 9);
    assert("icon"@ != "isArchive"@);
    assert("url"@.len() == 3 && "automaticallyCopy"@.len() == 17);
    assert("url"@ != "automaticallyCopy"@);
    assert("url"@.len() == 3 && "copy"@.len() == 4);
    assert("url"@ != "copy"@);
    assert("url"@.len() == 3 && "isArchive"@.len() == 9);
    assert("url"@ != "isArchive"@);
    assert("automaticallyCopy"@.len() == 17 && "copy"@.len() == 4);
    assert("automaticallyCopy"@ != "copy"@);
    assert("automaticallyCopy"@.len() == 17 && "isArchive"@.len() == 9);
    assert("automaticallyCopy"@ != "isArchive"@);
    assert("copy"@.len() == 4 && "isArchive"@.len() == 9);
    assert("copy"@ != "isArchive"@);
    let f0 = seq![("title"@, JsonView::Str(m.title@)), ("body"@, JsonView::Str(m.body@))];
    let s1 = crate::notify::request::put_spec(f0, "group"@, c.group@);
    let s2 = crate::notify::request::put_spec(s1, "sound"@, c.sound@);
    let s3 = crate::notify::request::put_spec(s2, "level"@, c.level@);
    let s4 = crate::notify::request::put_spec(s3, "icon"@, c.icon@);
    let s5 = crate::notify::request::put_spec(s4, "url"@, c.click_url@);
    let a1 = s5.push(("automaticallyCopy"@, JsonView::Int(1)));
    let a2 = a1.push(("copy"@, JsonView::Str(if is_blank(c.copy@) { m.body@ } else { c.copy@ })));
    let f2 = if c.auto_copy { a2 } else { s5 };
    let fin = f2.push(("isArchive"@, JsonView::Int(if c.save_history { 1 } else { 0 })));
    assert(crate::notify::request::bark_fields(c, m) == fin);
    lemma_field_at(f0, 0, "title"@);
    lemma_field_of_put(f0, "group"@, c.group@, "title"@);
    lemma_field_of_put(s1, "sound"@, c.sound@, "title"@);
    lemma_field_of_put(s2, "level"@, c.level@, "title"@);
    lemma_field_of_put(s3, "icon"@, c.icon@, "title"@);
    lemma_field_of_put(s4, "url"@, c.click_url@, "title"@);
    lemma_field_of_push(s5, ("automaticallyCopy"@, JsonView::Int(1)), "title"@);
    lemma_field_of_push(a1, ("copy"@, JsonView::Str(if is_blank(c.copy@) { m.body@ } else { c.copy@ })), "title"@);
    lemma_field_of_push(f2, ("isArchive"@, JsonView::Int(if c.save_history { 1 } else { 0 })), "title"@);
    lemma_field_at(f0, 1, "body"@);
    lemma_field_of_put(f0, "group"@, c.group@, "body"@);
    lemma_field_of_put(s1, "sound"@, c.sound@, "body"@);
    lemma_field_of_put(s2, "level"@, c.level@, "body"@);
    lemma_field_of_put(s3, "icon"@, c.icon@, "body"@);
    lemma_field_of_put(s4, "url"@, c.click_url@, "body"@);
    lemma_field_of_push(s5, ("automaticallyCopy"@, JsonView::Int(1)), "body"@);
    lemma_field_of_push(a1, ("copy"@, JsonView::Str(if is_blank(c.copy@) { m.body@ } else { c.copy@ })), "body"@);
    lemma_field_of_push(f2, ("isArchive"@, JsonView::Int(if c.save_history { 1 } else { 0 })), "body"@);
    lemma_field_absent(f0, "group"@);
    lemma_field_of_put(f0, "group"@, c.group@, "group"@);
    lemma_field_of_put(s1, "sound"@, c.sound@, "group"@);
    lemma_field_of_put(s2, "level"@, c.level@, "group"@);
    lemma_field_of_put(s3, "icon"@, c.icon@, "group"@);
    lemma_field_of_put(s4, "url"@, c.click_url@, "group"@);
    lemma_field_of_push(s5, ("automaticallyCopy"@, JsonView::Int(1)), "group"@);
    lemma_field_of_push(a1, ("copy"@, JsonView::Str(if is_blank(c.copy@) { m.body@ } else { c.copy@ })), "group"@);
    lemma_field_of_push(f2, ("isArchive"@, JsonView::Int(if c.save_history { 1 } else { 0 })), "group"@);
    lemma_field_absent(f0, "isArchive"@);
    lemma_field_of_put(f0, "group"@, c.group@, "isArchive"@);
    lemma_field_of_put(s1, "sound"@, c.sound@, "isArchive"@);
    lemma_field_of_put(s2, "level"@, c.level@, "isArchive"@);
    lemma_field_of_put(s3, "icon"@, c.icon@, "isArchive"@);
    lemma_field_of_put(s4, "url"@, c.click_url@, "isArchive"@);
    lemma_field_of_push(s5, ("automaticallyCopy"@, JsonView::Int(1)), "isArchive"@);
    lemma_field_of_push(a1, ("copy"@, JsonView::Str(if is_blank(c.copy@) { m.body@ } else { c.copy@ })), "isArchive"@);
    lemma_field_of_push(f2, ("isArchive"@, JsonView::Int(if c.save_history { 1 } else { 0 })), "isArchive"@);
    lemma_field_absent(f0, "automaticallyCopy"@);
    lemma_field_of_put(f0, "group"@, c.group@, "automaticallyCopy"@);
    lemma_field_of_put(s1, "sound"@, c.sound@, "automaticallyCopy"@);
    lemma_field_of_put(s2, "level"@, c.level@, "automaticallyCopy"@);
    lemma_field_of_put(s3, "icon"@, c.icon@, "automaticallyCopy"@);
    lemma_field_of_put(s4, "url"@, c.click_url@, "automaticallyCopy"@);
    lemma_field_of_push(s5, ("automaticallyCopy"@, JsonView::Int(1)), "automaticallyCopy"@);
    lemma_field_of_push(a1, ("copy"@, JsonView::Str(if is_blank(c.copy@) { m.body@ } else { c.copy@ })), "automaticallyCopy"@);
    lemma_field_of_push(f2, ("isArchive"@, JsonView::Int(if c.save_history { 1 } else { 0 })), "automaticallyCopy"@);
    lemma_field_absent(f0, "copy"@);
    lemma_field_of_put(f0, "group"@, c.group@, "copy"@);
    lemma_field_of_put(s1, "sound"@, c.sound@, "copy"@);
    lemma_field_of_put(s2, "level"@, c.level@, "copy"@);
    lemma_field_of_put(s3, "icon"@, c.icon@, "copy"@);
    lemma_field_of_put(s4, "url"@, c.click_url@, "copy"@);
    lemma_field_of_push(s5, ("automaticallyCopy"@, JsonView::Int(1)), "copy"@);
    lemma_field_of_push(a1, ("copy"@, JsonView::Str(if is_blank(c.copy@) { m.body@ } else { c.copy@ })), "copy"@);
    lemma_field_of_push(f2, ("isArchive"@, JsonView::Int(if c.save_history { 1 } else { 0 })), "copy"@);
}

/// A checked PushPlus configuration posts its token, the title and the
/// message body as the content, to the configured API URL or the public
/// one; the topic goes along only when set.
pub proof fn lemma_pushplus_sends_the_body(c: PushplusConfig, m: NotificationMessage, clock: Clock)
    requires
        config_problem(ChannelConfig::Pushplus(c)) is None,
        m.custom_body is None,
    ensures
        (start_spec(ChannelConfig::Pushplus(c), m, clock) matches StepView::Send { request: r, then }
            && then == (Pending::Answer { channel: ChannelType::Pushplus, inspect: true })
            && r.method == HttpMethod::Post
            && r.url == (if is_blank(c.api_url@) {
            "https://www.pushplus.plus/send"@
        } else {
            trim(c.api_url@)
        }) && payload_get(r, "token"@) == Some(JsonView::Str(trim(c.token@)))
            && payload_get(r, "title"@) == Some(JsonView::Str(m.title@))
            && payload_get(r, "content"@) == Some(JsonView::Str(m.body@))
            && payload_get(r, "topic"@) == (if is_blank(c.topic@) {
            None
        } else {
            Some(JsonView::Str(trim(c.topic@)))
        })),
{
    reveal_strlit("token");
    reveal_strlit("title");
    reveal_strlit("content");
    reveal_strlit("topic");
    reveal_strlit("template");
    reveal_strlit("channel");
    reveal_strlit("option");
    reveal_strlit("callbackUrl");
    assert("token"@[1] == 'o' && "title"@[1] == 'i');
    assert("token"@ != "title"@);
    assert("token"@.len() == 5 && "content"@.len() == 7);
    assert("token"@ != "content"@);
    assert("token"@[2] == 'k' && "topic"@[2] == 'p');
    assert("token"@ != "topic"@);
    assert("token"@.len() == 5 && "template"@.len() == 8);
    assert("token"@ != "template"@);
    assert("token"@.len() == 5 && "channel"@.len() == 7);
    assert("token"@ != "channel"@);
    assert("token"@.len() == 5 && "option"@.len() == 6);
    assert("token"@ != "option"@);
    assert("token"@.len() == 5 && "callbackUrl"@.len() == 11);
    assert("token"@ != "callbackUrl"@);
    assert("title"@.len() == 5 && "content"@.len() == 7);
    assert("title"@ != "content"@);
    assert("title"@[1] == 'i' && "topic"@[1] == 'o');
    assert("title"@ != "topic"@);
    assert("title"@.len() == 5 && "template"@.len() == 8);
    assert("title"@ != "template"@);
    assert("title"@.len() == 5 && "channel"@.len() == 7);
    assert("title"@ != "channel"@);
    assert("title"@.len() == 5 && "option"@.len() == 6);
    assert("title"@ != "option"@);
    assert("title"@.len() == 5 && "callbackUrl"@.len() == 11);
    assert("title"@ != "callbackUrl"@);
    assert("content"@.len() == 7 && "topic"@.len() == 5);
    assert("content"@ != "topic"@);
    assert("content"@.len() == 7 && "template"@.len() == 8);
    assert("content"@ != "template"@);
    assert("content"@[1] == 'o' && "channel"@[1] == 'h');
    assert("content"@ != "channel"@);
    assert("content"@.len() == 7 && "option"@.len() == 6);
    assert("content"@ != "option"@);
    assert("content"@.len() == 7 && "callbackUrl"@.len() == 11);
    assert("content"@ != "callbackUrl"@);
    assert("topic"@.len() == 5 && "template"@.len() == 8);
    assert("topic"@ != "template"@);
    assert("topic"@.len() == 5 && "channel"@.len() == 7);
    assert("topic"@ != "channel"@);
    assert("topic"@.len() == 5 && "option"@.len() == 6);
    assert("topic"@ != "option"@);
    assert("topic"@.len() == 5 && "callbackUrl"@.len() == 11);
    assert("topic"@ != "callbackUrl"@);
    assert("template"@.len() == 8 && "channel"@.len() == 7);
    assert("template"@ != "channel"@);
    assert("template"@.len() == 8 && "option"@.len() == 6);
    assert("template"@ != "option"@);
    assert("template"@.len() == 8 && "callbackUrl"@.len() == 11);
    assert("template"@ != "callbackUrl"@);
    assert("channel"@.len() == 7 && "option"@.len() == 6);
    assert("channel"@ != "option"@);
    assert("channel"@.len() == 7 && "callbackUrl"@.len() == 11);
    assert("channel"@ != "callbackUrl"@);
    assert("option"@.len() == 6 && "callbackUrl"@.len() == 11);
    assert("option"@ != "callbackUrl"@);
    let f0 = seq![("token"@, JsonView::Str(trim(c.token@))), ("title"@, JsonView::Str(m.title@)), ("content"@, JsonView::Str(m.body@))];
    let s1 = crate::notify::request::put_spec(f0, "topic"@, c.topic@);
    let s2 = crate::notify::request::put_spec(s1, "template"@, c.template@);
    let s3 = crate::notify::request::put_spec(s2, "channel"@, c.channel@);
    let s4 = crate::notify::request::put_spec(s3, "option"@, c.option@);
    let s5 = crate::notify::request::put_spec(s4, "callbackUrl"@, c.callback_url@);
    lemma_field_at(f0, 0, "token"@);
    lemma_field_of_put(f0, "topic"@, c.topic@, "token"@);
    lemma_field_of_put(s1, "template"@, c.template@, "token"@);
    lemma_field_of_put(s2, "channel"@, c.channel@, "token"@);
    lemma_field_of_put(s3, "option"@, c.option@, "token"@);
    lemma_field_of_put(s4, "callbackUrl"@, c.callback_url@, "token"@);
    lemma_field_at(f0, 1, "title"@);
    lemma_field_of_put(f0, "topic"@, c.topic@, "title"@);
    lemma_field_of_put(s1, "template"@, c.template@, "title"@);
    lemma_field_of_put(s2, "channel"@, c.channel@, "title"@);
    lemma_field_of_put(s3, "option"@, c.option@, "title"@);
    lemma_field_of_put(s4, "callbackUrl"@, c.callback_url@, "title"@);
    lemma_field_at(f0, 2, "content"@);
    lemma_field_of_put(f0, "topic"@, c.topic@, "content"@);
    lemma_field_of_put(s1, "template"@, c.template@, "content"@);
    lemma_field_of_put(s2, "channel"@, c.channel@, "content"@);
    lemma_field_of_put(s3, "option"@, c.option@, "content"@);
    lemma_field_of_put(s4, "callbackUrl"@, c.callback_url@, "content"@);
    lemma_field_absent(f0, "topic"@);
    lemma_field_of_put(f0, "topic"@, c.topic@, "topic"@);
    lemma_field_of_put(s1, "template"@, c.template@, "topic"@);
    lemma_field_of_put(s2, "channel"@, c.channel@, "topic"@);
    lemma_field_of_put(s3, "option"@, c.option@, "topic"@);
    lemma_field_of_put(s4, "callbackUrl"@, c.callback_url@, "topic"@);
}

/// A checked ServerChan configuration posts the title and the message body
/// (as `desp`) as a form, then the channel and the group (the open id) when
/// set, to the configured API URL or to the user's URL for the SendKey.
/// Without a user id, configured or read from the SendKey, it fails.
pub proof fn lemma_serverchan_sends_the_body(c: Serverchan3Config, m: NotificationMessage, clock: Clock)
    requires
        config_problem(ChannelConfig::Serverchan3(c)) is None,
        m.custom_body is None,
    ensures
        ({
            let uid = if !is_blank(c.uid@) {
                Some(trim(c.uid@))
            } else {
                crate::notify::request::serverchan_uid_spec(c.send_key@)
            };
            match uid {
                None => start_spec(ChannelConfig::Serverchan3(c), m, clock) == StepView::Done(
                    Err(NotifyErrorView::InvalidConfig("ServerChan UID is required"@)),
                ),
                Some(u) => (start_spec(ChannelConfig::Serverchan3(c), m, clock) matches StepView::Send {
                    request: r,
                    then,
                } && then == (Pending::Answer { channel: ChannelType::Serverchan3, inspect: true })
                    && r.method == HttpMethod::Post && r.url == (if is_blank(c.api_url@) {
                    "https://"@ + u + ".push.ft07.com/send/"@ + url_component(c.send_key@) + ".send"@
                } else {
                    trim(c.api_url@)
                }) && r.body is Form && form_of(r).len() == 2 + (if is_blank(c.channel@) {
                    0int
                } else {
                    1int
                }) + (if is_blank(c.openid@) {
                    0int
                } else {
                    1int
                }) && form_of(r)[0] == ("title"@, m.title@) && form_of(r)[1] == ("desp"@, m.body@)
                    && (!is_blank(c.channel@) ==> form_of(r)[2] == ("channel"@, trim(c.channel@)))
                    && (!is_blank(c.openid@) ==> form_of(r).last() == ("group"@, trim(c.openid@)))),
            }
        }),
{
}

/// A checked webhook configuration sends to its URL with its method; a
/// `POST` carries the message text (the custom body when there is one) and
/// a `GET` nothing. The configured headers go first, in order, and the
/// title goes last.
pub proof fn lemma_webhook_sends_the_text(c: WebhookConfig, m: NotificationMessage, clock: Clock, meth: HttpMethod)
    requires
        config_problem(ChannelConfig::Webhook(c)) is None,
        crate::notify::request::webhook_method(c.http_method@) == Some(meth),
    ensures
        (start_spec(ChannelConfig::Webhook(c), m, clock) matches StepView::Send { request: r, then }
            && then == (Pending::Answer { channel: ChannelType::Webhook, inspect: false })
            && r.method == meth && r.url == trim(c.url@)
            && r.body == (if meth == HttpMethod::Post {
            RequestBodyView::Text(
                match m.custom_body {
                    Some(b) => b@,
                    None => m.body@,
                },
            )
        } else {
            RequestBodyView::Empty
        }) && r.headers.len() >= c.headers@.len() + 1
            && r.headers.take(c.headers@.len() as int) == c.headers.deep_view()
            && r.headers.last() == ("X-SimAdmin-Title"@, m.title@)),
{
    let r = crate::notify::request::webhook_view(c, m, meth);
    let h0 = c.headers.deep_view();
    assert(r.headers.take(h0.len() as int) =~= h0);
}

/// Where a DingTalk app sends: the configured API URL, or the public one.
pub open spec fn dingtalk_api(c: DingtalkAppConfig) -> Seq<char> {
    if is_blank(c.api_base_url@) {
        "https://api.dingtalk.com"@
    } else {
        base_url(c.api_base_url@)
    }
}

/// A DingTalk app first asks for an access token with its app key and
/// secret, and keeps the message body for the message that follows.
pub proof fn lemma_dingtalk_app_fetches_a_token(c: DingtalkAppConfig, m: NotificationMessage, clock: Clock)
    requires
        config_problem(ChannelConfig::DingtalkApp(c)) is None,
        m.custom_body is None,
    ensures
        (start_spec(ChannelConfig::DingtalkApp(c), m, clock) matches StepView::Send { request: r, then }
            && then == (Pending::DingtalkToken { config: c, body: m.body })
            && r.method == HttpMethod::Post
            && r.url == dingtalk_api(c) + "/v1.0/oauth2/accessToken"@
            && payload_get(r, "appKey"@) == Some(JsonView::Str(trim(c.app_key@)))
            && payload_get(r, "appSecret"@) == Some(JsonView::Str(trim(c.app_secret@)))),
{
    reveal_strlit("appKey");
    reveal_strlit("appSecret");
    assert("appKey"@.len() == 6 && "appSecret"@.len() == 9);
    assert("appKey"@ != "appSecret"@);
    let g = seq![
        ("appKey"@, JsonView::Str(trim(c.app_key@))),
        ("appSecret"@, JsonView::Str(trim(c.app_secret@))),
    ];
    lemma_field_at(g, 0, "appKey"@);
    lemma_field_at(g, 1, "appSecret"@);
}

/// With an access token in the answer, a DingTalk app sends the message
/// body as the content of its message parameter to the configured
/// conversation, as its robot (the app key unless a robot code is set),
/// with the token in its header.
pub proof fn lemma_dingtalk_app_message(
    c: DingtalkAppConfig,
    text: String,
    status: u16,
    reply: Seq<char>,
    token: Seq<char>,
)
    requires
        spec_parse_json(reply) matches Ok(d) && text_member(d, "accessToken"@) == Some(token),
    ensures
        (reply_spec(Pending::DingtalkToken { config: c, body: text }, status, reply) matches StepView::Send {
            request: r,
            then,
        } && then == (Pending::Answer { channel: ChannelType::DingtalkApp, inspect: true })
            && r.method == HttpMethod::Post
            && r.url == dingtalk_api(c) + "/v1.0/robot/groupMessages/send"@
            && r.headers == seq![("x-acs-dingtalk-access-token"@, token)]
            && payload_get(r, "robotCode"@) == Some(JsonView::Str(if is_blank(c.robot_code@) {
            trim(c.app_key@)
        } else {
            trim(c.robot_code@)
        })) && payload_get(r, "openConversationId"@) == Some(JsonView::Str(trim(c.open_conversation_id@)))
            && payload_get(r, "msgKey"@) == Some(JsonView::Str(if is_blank(c.msg_key@) {
            "sampleText"@
        } else {
            trim(c.msg_key@)
        })) && payload_get(r, "msgParam"@) == Some(
            JsonView::Str("{\"content\":"@ + json_string_literal(text@) + "}"@),
        )),
{
    reveal_strlit("robotCode");
    reveal_strlit("openConversationId");
    reveal_strlit("msgKey");
    reveal_strlit("msgParam");
    assert("robotCode"@.len() == 9 && "openConversationId"@.len() == 18);
    assert("robotCode"@ != "openConversationId"@);
    assert("robotCode"@.len() == 9 && "msgKey"@.len() == 6);
    assert("robotCode"@ != "msgKey"@);
    assert("robotCode"@.len() == 9 && "msgParam"@.len() == 8);
    assert("robotCode"@ != "msgParam"@);
    assert("openConversationId"@.len() == 18 && "msgKey"@.len() == 6);
    assert("openConversationId"@ != "msgKey"@);
    assert("openConversationId"@.len() == 18 && "msgParam"@.len() == 8);
    assert("openConversationId"@ != "msgParam"@);
    assert("msgKey"@.len() == 6 && "msgParam"@.len() == 8);
    assert("msgKey"@ != "msgParam"@);
    let r = crate::notify::request::dingtalk_message_view(c, text@, token);
    let g = match r.body {
        RequestBodyView::Json(JsonView::Object(g)) => g,
        _ => seq![],
    };
    lemma_field_at(g, 0, "robotCode"@);
    lemma_field_at(g, 1, "openConversationId"@);
    lemma_field_at(g, 2, "msgKey"@);
    lemma_field_at(g, 3, "msgParam"@);
}

/// An e-mail delivery whose plan succeeds sends the title as the subject
/// and the message body as the body, through the configured host, on the
/// configured port (at least 1), to at least one receiver.
pub proof fn lemma_email_sends_the_body(c: EmailConfig, m: NotificationMessage, clock: Clock)
    requires
        config_problem(ChannelConfig::Email(c)) is None,
        m.custom_body is None,
        crate::notify::email::mail_plan_spec(c, m) is Ok,
    ensures
        (start_spec(ChannelConfig::Email(c), m, clock) matches StepView::Mail(p) && p.subject == m.title@
            && p.body == m.body@ && p.host == trim(c.smtp_host@) && p.port == (if c.smtp_port >= 1 {
            c.smtp_port
        } else {
            1
        }) && p.receivers.len() > 0 && p.sender.email == trim(c.sender_address@)
            && p.allow_insecure_tls == c.allow_insecure_tls),
{
}

/// A channel without a raw-JSON endpoint (and other than the webhook) sends
/// a custom JSON body as an ordinary message whose body is the custom text:
/// the delivery is the one of that message.
pub proof fn lemma_custom_body_as_message(c: ChannelConfig, m: NotificationMessage, clock: Clock, text: String)
    requires
        m.custom_body == Some(text),
        spec_parse_json(text@) is Ok,
        c is Pushplus || c is WecomApp || c is DingtalkApp || c is Email || c is Serverchan3,
    ensures
        start_spec(c, m, clock) == start_spec(
            c,
            NotificationMessage { title: m.title, body: text, custom_body: None },
            clock,
        ),
{
}

/// Every channel but the webhook refuses a custom body that is not JSON,
/// with the parser's complaint, once the configuration passes its checks;
/// nothing is sent.
pub proof fn lemma_custom_body_must_parse(c: ChannelConfig, m: NotificationMessage, clock: Clock, text: String, e: Seq<char>)
    requires
        config_problem(c) is None,
        !(c is Webhook),
        m.custom_body == Some(text),
        spec_parse_json(text@) == Err::<JsonDocumentView, Seq<char>>(e),
    ensures
        start_spec(c, m, clock) == StepView::Done(
            Err(NotifyErrorView::InvalidConfig("custom body must be valid JSON: "@ + e)),
        ),
{
}

/// The body of a request that was built; empty when it was refused.
pub open spec fn ok_body(r: Result<HttpRequestView, NotifyErrorView>) -> RequestBodyView {
    match r {
        Ok(q) => q.body,
        Err(_) => RequestBodyView::Empty,
    }
}

/// The text of the first member named `key` in a member list, if any.
pub open spec fn text_of(entries: Seq<(Seq<char>, Seq<char>)>, key: Seq<char>) -> Option<Seq<char>>
    decreases entries.len(),
{
    if entries.len() == 0 {
        None
    } else if entries[0].0 == key {
        Some(entries[0].1)
    } else {
        text_of(entries.drop_first(), key)
    }
}

/// Setting a member gives it the new text and leaves every other member's
/// text as it was.
pub proof fn lemma_put_sorted_sets(entries: Seq<(Seq<char>, Seq<char>)>, key: Seq<char>, text: Seq<char>, other: Seq<char>)
    ensures
        text_of(put_sorted(entries, key, text), key) == Some(text),
        other != key ==> text_of(put_sorted(entries, key, text), other) == text_of(entries, other),
    decreases entries.len(),
{
    if entries.len() > 0 && entries[0].0 != key && !key_less(key, entries[0].0) {
        lemma_put_sorted_sets(entries.drop_first(), key, text, other);
        let p = seq![entries[0]] + put_sorted(entries.drop_first(), key, text);
        assert(p[0] == entries[0]);
        assert(p.drop_first() =~= put_sorted(entries.drop_first(), key, text));
        assert(put_sorted(entries, key, text) == p);
    } else if entries.len() > 0 && entries[0].0 == key {
        let p = seq![(key, text)] + entries.drop_first();
        assert(p[0] == (key, text));
        assert(p.drop_first() =~= entries.drop_first());
        assert(put_sorted(entries, key, text) == p);
    } else if entries.len() > 0 {
        let p = seq![(key, text)] + entries;
        assert(p[0] == (key, text));
        assert(p.drop_first() =~= entries);
        assert(put_sorted(entries, key, text) == p);
    } else {
        let p = seq![(key, text)];
        assert(p[0] == (key, text));
        assert(p.drop_first() =~= Seq::<(Seq<char>, Seq<char>)>::empty());
        assert(text_of(p.drop_first(), other) is None);
        assert(put_sorted(entries, key, text) == p);
    }
}

/// A custom Feishu object is sent as the object it parses to; with a secret,
/// as that object with `timestamp` set to the second-resolution time and
/// `sign` to the signature of that time and the secret, every other member
/// kept as it was.
pub proof fn lemma_feishu_custom_body(c: FeishuRobotConfig, d: JsonDocumentView, seconds: u64, other: Seq<char>)
    requires
        d.root == JsonKindView::Object,
        !is_blank(c.webhook_url@) || !is_blank(c.token@),
    ensures
        crate::notify::request::feishu_custom_spec(c, d, seconds) is Ok,
        is_blank(c.secret@) ==> ok_body(crate::notify::request::feishu_custom_spec(c, d, seconds))
            == RequestBodyView::JsonText(d.canonical),
        !is_blank(c.secret@) ==> exists|e: Seq<(Seq<char>, Seq<char>)>|
            ok_body(crate::notify::request::feishu_custom_spec(c, d, seconds)) == RequestBodyView::JsonText(
                #[trigger] object_text(e),
            ) && text_of(e, "timestamp"@) == Some(json_string_literal(decimal(seconds as nat)))
            && text_of(e, "sign"@) == Some(
            json_string_literal(
                base64_std(
                    spec_hmac_sha256(
                        encode_utf8(decimal(seconds as nat) + "\n"@ + trim(c.secret@)),
                        Seq::empty(),
                    ),
                ),
            ),
        ) && (other != "timestamp"@ && other != "sign"@ ==> text_of(e, other) == text_of(d.member_texts, other)),
{
    if !is_blank(c.secret@) {
        reveal_strlit("timestamp");
        reveal_strlit("sign");
        assert("timestamp"@.len() == 9 && "sign"@.len() == 4);
        let x = crate::notify::request::feishu_signature_fields(c, seconds);
        let e1 = put_sorted(d.member_texts, x[0].0, json_string_literal(x[0].1));
        let e = put_sorted(e1, x[1].0, json_string_literal(x[1].1));
        lemma_put_sorted_sets(d.member_texts, x[0].0, json_string_literal(x[0].1), other);
        lemma_put_sorted_sets(d.member_texts, x[0].0, json_string_literal(x[0].1), "sign"@);
        lemma_put_sorted_sets(e1, x[1].0, json_string_literal(x[1].1), other);
        lemma_put_sorted_sets(e1, x[1].0, json_string_literal(x[1].1), "timestamp"@);
        let r = crate::notify::request::post_json_text_view(
            crate::notify::request::feishu_url(c)->Ok_0,
            object_text(e),
        );
        assert(r.body == RequestBodyView::JsonText(object_text(e)));
    }
}

/// How an answer ends a delivery: a status outside 200..=299 fails with the
/// status and the summarized body; a 2xx answer that the provider's JSON
/// refuses fails with the summarized body when the answer is checked; any
/// other 2xx answer gives a receipt with the channel's name, the status and
/// the summarized body. The summary collapses whitespace and keeps at most
/// 240 characters, marking a cut with `...`.
pub proof fn lemma_answer_outcomes(ch: ChannelType, inspect: bool, status: u16, body: Seq<char>)
    ensures
        !(200 <= status <= 299) ==> finish_spec(ch, inspect, status, body) == Err::<DeliveryReceiptView, NotifyErrorView>(
            NotifyErrorView::Http { status, body: compact_spec(body, 240) },
        ),
        200 <= status <= 299 && inspect && !provider_accepts(ch, body) ==> finish_spec(ch, inspect, status, body)
            == Err::<DeliveryReceiptView, NotifyErrorView>(NotifyErrorView::Provider(compact_spec(body, 240))),
        200 <= status <= 299 && (!inspect || provider_accepts(ch, body)) ==> finish_spec(ch, inspect, status, body)
            == Ok::<DeliveryReceiptView, NotifyErrorView>(
            DeliveryReceiptView { provider: channel_name(ch), status_code: status, response_summary: compact_spec(body, 240) },
        ),
        compact_spec(body, 240).len() <= 243,
        collapse_ws(body).len() <= 240 ==> compact_spec(body, 240) == collapse_ws(body),
        collapse_ws(body).len() > 240 ==> compact_spec(body, 240) == collapse_ws(body).take(240) + "..."@,
{
    reveal_strlit("...");
}

/// Bark's optional fields (sound, level, icon, click URL) go along, trimmed,
/// exactly when they are set.
pub proof fn lemma_bark_optional_fields(c: BarkConfig, m: NotificationMessage, clock: Clock)
    requires
        config_problem(ChannelConfig::Bark(c)) is None,
        m.custom_body is None,
    ensures
        (start_spec(ChannelConfig::Bark(c), m, clock) matches StepView::Send { request: r, then }
            && then == (Pending::Answer { channel: ChannelType::Bark, inspect: true })
            && payload_get(r, "sound"@) == (if is_blank(c.sound@) {
            None
        } else {
            Some(JsonView::Str(trim(c.sound@)))
        })
            && payload_get(r, "level"@) == (if is_blank(c.level@) {
            None
        } else {
            Some(JsonView::Str(trim(c.level@)))
        })
            && payload_get(r, "icon"@) == (if is_blank(c.icon@) {
            None
        } else {
            Some(JsonView::Str(trim(c.icon@)))
        })
            && payload_get(r, "url"@) == (if is_blank(c.click_url@) {
            None
        } else {
            Some(JsonView::Str(trim(c.click_url@)))
        })),
{
    reveal_strlit("title");
    reveal_strlit("body");
    reveal_strlit("group");
    reveal_strlit("sound");
    reveal_strlit("level");
    reveal_strlit("icon");
    reveal_strlit("url");
    reveal_strlit("automaticallyCopy");
    reveal_strlit("copy");
    reveal_strlit("isArchive");
    assert("title"@.len() == 5 && "body"@.len() == 4);
    assert("title"@ != "body"@);
    assert("title"@[0] == 't' && "group"@[0] == 'g');
    assert("title"@ != "group"@);
    assert("title"@[0] == 't' && "sound"@[0] == 's');
    assert("title"@ != "sound"@);
    assert("title"@[0] == 't' && "level"@[0] == 'l');
    assert("title"@ != "level"@);
    assert("title"@.len() == 5 && "icon"@.len() == 4);
    assert("title"@ != "icon"@);
    assert("title"@.len() == 5 && "url"@.len() == 3);
    assert("title"@ != "url"@);
    assert("title"@.len() == 5 && "automaticallyCopy"@.len() == 17);
    assert("title"@ != "automaticallyCopy"@);
    assert("title"@.len() == 5 && "copy"@.len() == 4);
    assert("title"@ != "copy"@);
    assert("title"@.len() == 5 && "isArchive"@.len() == 9);
    assert("title"@ != "isArchive"@);
    assert("body"@.len() == 4 && "group"@.len() == 5);
    assert("body"@ != "group"@);
    assert("body"@.len() == 4 && "sound"@.len() == 5);
    assert("body"@ != "sound"@);
    assert("body"@.len() == 4 && "level"@.len() == 5);
    assert("body"@ != "level"@);
    assert("body"@[0] == 'b' && "icon"@[0] == 'i');
    assert("body"@ != "icon"@);
    assert("body"@.len() == 4 && "url"@.len() == 3);
    assert("body"@ != "url"@);
    assert("body"@.len() == 4 && "automaticallyCopy"@.len() == 17);
    assert("body"@ != "automaticallyCopy"@);
    assert("body"@[0] == 'b' && "copy"@[0] == 'c');
    assert("body"@ != "copy"@);
    assert("body"@.len() == 4 && "isArchive"@.len() == 9);
    assert("body"@ != "isArchive"@);
    assert("group"@[0] == 'g' && "sound"@[0] == 's');
    assert("group"@ != "sound"@);
    assert("group"@[0] == 'g' && "level"@[0] == 'l');
    assert("group"@ != "level"@);
    assert("group"@.len() == 5 && "icon"@.len() == 4);
    assert("group"@ != "icon"@);
    assert("group"@.len() == 5 && "url"@.len() == 3);
    assert("group"@ != "url"@);
    assert("group"@.len() == 5 && "automaticallyCopy"@.len() == 17);
    assert("group"@ != "automaticallyCopy"@);
    assert("group"@.len() == 5 && "copy"@.len() == 4);
    assert("group"@ != "copy"@);
    assert("group"@.len() == 5 && "isArchive"@.len() == 9);
    assert("group"@ != "isArchive"@);
    assert("sound"@[0] == 's' && "level"@[0] == 'l');
    assert("sound"@ != "level"@);
    assert("sound"@.len() == 5 && "icon"@.len() == 4);
    assert("sound"@ != "icon"@);
    assert("sound"@.len() == 5 && "url"@.len() == 3);
    assert("sound"@ != "url"@);
    assert("sound"@.len() == 5 && "automaticallyCopy"@.len() == 17);
    assert("sound"@ != "automaticallyCopy"@);
    assert("sound"@.len() == 5 && "copy"@.len() == 4);
    assert("sound"@ != "copy"@);
    assert("sound"@.len() == 5 && "isArchive"@.len() == 9);
    assert("sound"@ != "isArchive"@);
    assert("level"@.len() == 5 && "icon"@.len() == 4);
    assert("level"@ != "icon"@);
    assert("level"@.len() == 5 && "url"@.len() == 3);
    assert("level"@ != "url"@);
    assert("level"@.len() == 5 && "automaticallyCopy"@.len() == 17);
    assert("level"@ != "automaticallyCopy"@);
    assert("level"@.len() == 5 && "copy"@.len() == 4);
    assert("level"@ != "copy"@);
    assert("level"@.len() == 5 && "isArchive"@.len() == 9);
    assert("level"@ != "isArchive"@);
    assert("icon"@.len() == 4 && "url"@.len() == 3);
    assert("icon"@ != "url"@);
    assert("icon"@.len() == 4 && "automaticallyCopy"@.len() == 17);
    assert("icon"@ != "automaticallyCopy"@);
    assert("icon"@[0] == 'i' && "copy"@[0] == 'c');
    assert("icon"@ != "copy"@);
    assert("icon"@.len() == 4 && "isArchive"@.len() == 9);
    assert("icon"@ != "isArchive"@);
    assert("url"@.len() == 3 && "automaticallyCopy"@.len() == 17);
    assert("url"@ != "automaticallyCopy"@);
    assert("url"@.len() == 3 && "copy"@.len() == 4);
    assert("url"@ != "copy"@);
    assert("url"@.len() == 3 && "isArchive"@.len() == 9);
    assert("url"@ != "isArchive"@);
    assert("automaticallyCopy"@.len() == 17 && "copy"@.len() == 4);
    assert("automaticallyCopy"@ != "copy"@);
    assert("automaticallyCopy"@.len() == 17 && "isArchive"@.len() == 9);
    assert("automaticallyCopy"@ != "isArchive"@);
    assert("copy"@.len() == 4 && "isArchive"@.len() == 9);
    assert("copy"@ != "isArchive"@);
    let f0 = seq![("title"@, JsonView::Str(m.title@)), ("body"@, JsonView::Str(m.body@))];
    let s1 = crate::notify::request::put_spec(f0, "group"@, c.group@);
    let s2 = crate::notify::request::put_spec(s1, "sound"@, c.sound@);
    let s3 = crate::notify::request::put_spec(s2, "level"@, c.level@);
    let s4 = crate::notify::request::put_spec(s3, "icon"@, c.icon@);
    let s5 = crate::notify::request::put_spec(s4, "url"@, c.click_url@);
    let a1 = s5.push(("automaticallyCopy"@, JsonView::Int(1)));
    let a2 = a1.push(("copy"@, JsonView::Str(if is_blank(c.copy@) { m.body@ } else { c.copy@ })));
    let f2 = if c.auto_copy { a2 } else { s5 };
    let fin = f2.push(("isArchive"@, JsonView::Int(if c.save_history { 1 } else { 0 })));
    assert(crate::notify::request::bark_fields(c, m) == fin);
    lemma_field_absent(f0, "sound"@);
    lemma_field_of_put(f0, "group"@, c.group@, "sound"@);
    lemma_field_of_put(s1, "sound"@, c.sound@, "sound"@);
    lemma_field_of_put(s2, "level"@, c.level@, "sound"@);
    lemma_field_of_put(s3, "icon"@, c.icon@, "sound"@);
    lemma_field_of_put(s4, "url"@, c.click_url@, "sound"@);
    lemma_field_of_push(s5, ("automaticallyCopy"@, JsonView::Int(1)), "sound"@);
    lemma_field_of_push(a1, ("copy"@, JsonView::Str(if is_blank(c.copy@) { m.body@ } else { c.copy@ })), "sound"@);
    lemma_field_of_push(f2, ("isArchive"@, JsonView::Int(if c.save_history { 1 } else { 0 })), "sound"@);
    lemma_field_absent(f0, "level"@);
    lemma_field_of_put(f0, "group"@, c.group@, "level"@);
    lemma_field_of_put(s1, "sound"@, c.sound@, "level"@);
    lemma_field_of_put(s2, "level"@, c.level@, "level"@);
    lemma_field_of_put(s3, "icon"@, c.icon@, "level"@);
    lemma_field_of_put(s4, "url"@, c.click_url@, "level"@);
    lemma_field_of_push(s5, ("automaticallyCopy"@, JsonView::Int(1)), "level"@);
    lemma_field_of_push(a1, ("copy"@, JsonView::Str(if is_blank(c.copy@) { m.body@ } else { c.copy@ })), "level"@);
    lemma_field_of_push(f2, ("isArchive"@, JsonView::Int(if c.save_history { 1 } else { 0 })), "level"@);
    lemma_field_absent(f0, "icon"@);
    lemma_field_of_put(f0, "group"@, c.group@, "icon"@);
    lemma_field_of_put(s1, "sound"@, c.sound@, "icon"@);
    lemma_field_of_put(s2, "level"@, c.level@, "icon"@);
    lemma_field_of_put(s3, "icon"@, c.icon@, "icon"@);
    lemma_field_of_put(s4, "url"@, c.click_url@, "icon"@);
    lemma_field_of_push(s5, ("automaticallyCopy"@, JsonView::Int(1)), "icon"@);
    lemma_field_of_push(a1, ("copy"@, JsonView::Str(if is_blank(c.copy@) { m.body@ } else { c.copy@ })), "icon"@);
    lemma_field_of_push(f2, ("isArchive"@, JsonView::Int(if c.save_history { 1 } else { 0 })), "icon"@);
    lemma_field_absent(f0, "url"@);
    lemma_field_of_put(f0, "group"@, c.group@, "url"@);
    lemma_field_of_put(s1, "sound"@, c.sound@, "url"@);
    lemma_field_of_put(s2, "level"@, c.level@, "url"@);
    lemma_field_of_put(s3, "icon"@, c.icon@, "url"@);
    lemma_field_of_put(s4, "url"@, c.click_url@, "url"@);
    lemma_field_of_push(s5, ("automaticallyCopy"@, JsonView::Int(1)), "url"@);
    lemma_field_of_push(a1, ("copy"@, JsonView::Str(if is_blank(c.copy@) { m.body@ } else { c.copy@ })), "url"@);
    lemma_field_of_push(f2, ("isArchive"@, JsonView::Int(if c.save_history { 1 } else { 0 })), "url"@);
}

/// PushPlus's optional fields (template, channel, option, callback URL) go
/// along, trimmed, exactly when they are set.
pub proof fn lemma_pushplus_optional_fields(c: PushplusConfig, m: NotificationMessage, clock: Clock)
    requires
        config_problem(ChannelConfig::Pushplus(c)) is None,
        m.custom_body is None,
    ensures
        (start_spec(ChannelConfig::Pushplus(c), m, clock) matches StepView::Send { request: r, then }
            && then == (Pending::Answer { channel: ChannelType::Pushplus, inspect: true })
            && payload_get(r, "template"@) == (if is_blank(c.template@) {
            None
        } else {
            Some(JsonView::Str(trim(c.template@)))
        })
            && payload_get(r, "channel"@) == (if is_blank(c.channel@) {
            None
        } else {
            Some(JsonView::Str(trim(c.channel@)))
        })
            && payload_get(r, "option"@) == (if is_blank(c.option@) {
            None
        } else {
            Some(JsonView::Str(trim(c.option@)))
        })
            && payload_get(r, "callbackUrl"@) == (if is_blank(c.callback_url@) {
            None
        } else {
            Some(JsonView::Str(trim(c.callback_url@)))
        })),
{
    reveal_strlit("token");
    reveal_strlit("title");
    reveal_strlit("content");
    reveal_strlit("topic");
    reveal_strlit("template");
    reveal_strlit("channel");
    reveal_strlit("option");
    reveal_strlit("callbackUrl");
    assert("token"@[1] == 'o' && "title"@[1] == 'i');
    assert("token"@ != "title"@);
    assert("token"@.len() == 5 && "content"@.len() == 7);
    assert("token"@ != "content"@);
    assert("token"@[2] == 'k' && "topic"@[2] == 'p');
    assert("token"@ != "topic"@);
    assert("token"@.len() == 5 && "template"@.len() == 8);
    assert("token"@ != "template"@);
    assert("token"@.len() == 5 && "channel"@.len() == 7);
    assert("token"@ != "channel"@);
    assert("token"@.len() == 5 && "option"@.len() == 6);
    assert("token"@ != "option"@);
    assert("token"@.len() == 5 && "callbackUrl"@.len() == 11);
    assert("token"@ != "callbackUrl"@);
    assert("title"@.len() == 5 && "content"@.len() == 7);
    assert("title"@ != "content"@);
    assert("title"@[1] == 'i' && "topic"@[1] == 'o');
    assert("title"@ != "topic"@);
    assert("title"@.len() == 5 && "template"@.len() == 8);
    assert("title"@ != "template"@);
    assert("title"@.len() == 5 && "channel"@.len() == 7);
    assert("title"@ != "channel"@);
    assert("title"@.len() == 5 && "option"@.len() == 6);
    assert("title"@ != "option"@);
    assert("title"@.len() == 5 && "callbackUrl"@.len() == 11);
    assert("title"@ != "callbackUrl"@);
    assert("content"@.len() == 7 && "topic"@.len() == 5);
    assert("content"@ != "topic"@);
    assert("content"@.len() == 7 && "template"@.len() == 8);
    assert("content"@ != "template"@);
    assert("content"@[1] == 'o' && "channel"@[1] == 'h');
    assert("content"@ != "channel"@);
    assert("content"@.len() == 7 && "option"@.len() == 6);
    assert("content"@ != "option"@);
    assert("content"@.len() == 7 && "callbackUrl"@.len() == 11);
    assert("content"@ != "callbackUrl"@);
    assert("topic"@.len() == 5 && "template"@.len() == 8);
    assert("topic"@ != "template"@);
    assert("topic"@.len() == 5 && "channel"@.len() == 7);
    assert("topic"@ != "channel"@);
    assert("topic"@.len() == 5 && "option"@.len() == 6);
    assert("topic"@ != "option"@);
    assert("topic"@.len() == 5 && "callbackUrl"@.len() == 11);
    assert("topic"@ != "callbackUrl"@);
    assert("template"@.len() == 8 && "channel"@.len() == 7);
    assert("template"@ != "channel"@);
    assert("template"@.len() == 8 && "option"@.len() == 6);
    assert("template"@ != "option"@);
    assert("template"@.len() == 8 && "callbackUrl"@.len() == 11);
    assert("template"@ != "callbackUrl"@);
    assert("channel"@.len() == 7 && "option"@.len() == 6);
    assert("channel"@ != "option"@);
    assert("channel"@.len() == 7 && "callbackUrl"@.len() == 11);
    assert("channel"@ != "callbackUrl"@);
    assert("option"@.len() == 6 && "callbackUrl"@.len() == 11);
    assert("option"@ != "callbackUrl"@);
    let f0 = seq![("token"@, JsonView::Str(trim(c.token@))), ("title"@, JsonView::Str(m.title@)), ("content"@, JsonView::Str(m.body@))];
    let s1 = crate::notify::request::put_spec(f0, "topic"@, c.topic@);
    let s2 = crate::notify::request::put_spec(s1, "template"@, c.template@);
    let s3 = crate::notify::request::put_spec(s2, "channel"@, c.channel@);
    let s4 = crate::notify::request::put_spec(s3, "option"@, c.option@);
    let s5 = crate::notify::request::put_spec(s4, "callbackUrl"@, c.callback_url@);
    assert(crate::notify::request::pushplus_view(c, m).body == RequestBodyView::Json(JsonView::Object(s5)));
    lemma_field_absent(f0, "template"@);
    lemma_field_of_put(f0, "topic"@, c.topic@, "template"@);
    lemma_field_of_put(s1, "template"@, c.template@, "template"@);
    lemma_field_of_put(s2, "channel"@, c.channel@, "template"@);
    lemma_field_of_put(s3, "option"@, c.option@, "template"@);
    lemma_field_of_put(s4, "callbackUrl"@, c.callback_url@, "template"@);
    lemma_field_absent(f0, "channel"@);
    lemma_field_of_put(f0, "topic"@, c.topic@, "channel"@);
    lemma_field_of_put(s1, "template"@, c.template@, "channel"@);
    lemma_field_of_put(s2, "channel"@, c.channel@, "channel"@);
    lemma_field_of_put(s3, "option"@, c.option@, "channel"@);
    lemma_field_of_put(s4, "callbackUrl"@, c.callback_url@, "channel"@);
    lemma_field_absent(f0, "option"@);
    lemma_field_of_put(f0, "topic"@, c.topic@, "option"@);
    lemma_field_of_put(s1, "template"@, c.template@, "option"@);
    lemma_field_of_put(s2, "channel"@, c.channel@, "option"@);
    lemma_field_of_put(s3, "option"@, c.option@, "option"@);
    lemma_field_of_put(s4, "callbackUrl"@, c.callback_url@, "option"@);
    lemma_field_absent(f0, "callbackUrl"@);
    lemma_field_of_put(f0, "topic"@, c.topic@, "callbackUrl"@);
    lemma_field_of_put(s1, "template"@, c.template@, "callbackUrl"@);
    lemma_field_of_put(s2, "channel"@, c.channel@, "callbackUrl"@);
    lemma_field_of_put(s3, "option"@, c.option@, "callbackUrl"@);
    lemma_field_of_put(s4, "callbackUrl"@, c.callback_url@, "callbackUrl"@);
}

} // verus!
