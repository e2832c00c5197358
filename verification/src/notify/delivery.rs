//! The course of one delivery. `start_delivery` checks the configuration and
//! says what to do first; each answer from the network goes to `on_reply`,
//! which says what to do next, until the delivery is done.
use vstd::prelude::*;
use vstd::string::*;
use crate::json::{member, member_of, parse_json, spec_parse_json, JsonDocumentView, JsonKind, JsonKindView};
use crate::notify::channel::{channel_name, ChannelType};
use crate::notify::config::{config_channel, config_problem, validate_config, ChannelConfig, DingtalkAppConfig, WecomAppConfig};
use crate::notify::email::{mail_plan_spec, plan_email, MailPlan, MailPlanView};
use crate::notify::error::{
    invalid, DeliveryReceipt, DeliveryReceiptView, NotificationMessage, NotifyError, NotifyErrorView,
};
use crate::notify::request::{
    bark_custom, bark_request, bark_view, base_url, custom_on_url, dingtalk_message_request,
    dingtalk_message_view, dingtalk_robot_custom, dingtalk_robot_payload, dingtalk_robot_request,
    dingtalk_robot_url, dingtalk_token_request, dingtalk_token_view, feishu_custom,
    feishu_custom_spec, feishu_payload, feishu_request, feishu_url, post_json_text_view,
    pushplus_request, pushplus_view, request_on_url, serverchan_request, serverchan_spec,
    telegram_custom, telegram_request, telegram_url, telegram_view, text_message,
    webhook_request, webhook_spec, wecom_message_request, wecom_message_spec, wecom_robot_custom,
    wecom_robot_request, wecom_robot_url, wecom_token_request, wecom_token_view, HttpRequest,
    HttpRequestView,
};
use crate::text::{compact, compact_spec, concat_str, decimal, u64_to_decimal};

verus! {

/// The time a delivery signs with, read once before it starts.
#[derive(Debug, Clone, Copy)]
pub struct Clock {
    pub seconds: u64,
    pub millis: u128,
}

/// The answer to one HTTP request: its status and its body as text.
#[derive(Debug, Clone)]
pub struct HttpReply {
    pub status: u16,
    pub body: String,
}

/// What a delivery waits for after a request.
#[derive(Debug, Clone)]
pub enum Pending {
    /// The answer that ends the delivery; `inspect` says whether the
    /// provider's JSON answer is checked for a refusal.
    Answer { channel: ChannelType, inspect: bool },
    /// A WeCom access token, after which the message goes out.
    WecomToken { config: WecomAppConfig, body: String },
    /// A DingTalk access token, after which the message goes out.
    DingtalkToken { config: DingtalkAppConfig, body: String },
}

/// What to do next.
#[derive(Debug)]
pub enum Step {
    /// Send this request and hand its answer to `on_reply` with `then`.
    Send { request: HttpRequest, then: Pending },
    /// Send this e-mail and hand the outcome to `mail_result`.
    Mail(MailPlan),
    /// The delivery is over.
    Done(Result<DeliveryReceipt, NotifyError>),
}

pub enum StepView {
    Send { request: HttpRequestView, then: Pending },
    Mail(MailPlanView),
    Done(Result<DeliveryReceiptView, NotifyErrorView>),
}

impl Step {
    pub open spec fn view(&self) -> StepView {
        match self {
            Step::Send { request, then } => StepView::Send { request: request.view(), then: *then },
            Step::Mail(p) => StepView::Mail(p.view()),
            Step::Done(r) => StepView::Done(
                match r {
                    Ok(receipt) => Ok(receipt.view()),
                    Err(e) => Err(e.view()),
                },
            ),
        }
    }
}

pub open spec fn fail(e: NotifyErrorView) -> StepView {
    StepView::Done(Err(e))
}

pub open spec fn answer(channel: ChannelType) -> Pending {
    Pending::Answer { channel, inspect: true }
}

/// Send the request when there is one, else fail with its error.
pub open spec fn send_or_fail(r: Result<HttpRequestView, NotifyErrorView>, then: Pending) -> StepView {
    match r {
        Ok(q) => StepView::Send { request: q, then },
        Err(e) => fail(e),
    }
}

/// The integer member `key`, if it is one that fits in an `i64`.
pub open spec fn int_member(d: JsonDocumentView, key: Seq<char>) -> Option<int> {
    match member_of(d.members, key) {
        Some(JsonKindView::Integer(v)) => Some(v),
        _ => None,
    }
}

/// The string member `key`, if it is a string.
pub open spec fn text_member(d: JsonDocumentView, key: Seq<char>) -> Option<Seq<char>> {
    match member_of(d.members, key) {
        Some(JsonKindView::Text(s)) => Some(s),
        _ => None,
    }
}

/// Whether a provider's JSON answer accepts the message. Each provider
/// reports a refusal in its own field; a field that is missing, or not of
/// the kind the provider uses, counts as acceptance.
pub open spec fn document_accepts(channel: ChannelType, d: JsonDocumentView) -> bool {
    match channel {
        ChannelType::Bark => match int_member(d, "code"@) {
            Some(v) => v == 200,
            None => true,
        },
        ChannelType::Pushplus | ChannelType::Serverchan3 => match int_member(d, "code"@) {
            Some(v) => v == 200 || v == 0,
            None => true,
        },
        ChannelType::WecomApp | ChannelType::WecomRobot | ChannelType::DingtalkRobot => match int_member(
            d,
            "errcode"@,
        ) {
            Some(v) => v == 0,
            None => true,
        },
        ChannelType::FeishuRobot => {
            let m = match member_of(d.members, "code"@) {
                Some(k) => Some(k),
                None => member_of(d.members, "StatusCode"@),
            };
            match m {
                Some(JsonKindView::Integer(v)) => v == 0,
                _ => true,
            }
        },
        ChannelType::Telegram => match member_of(d.members, "ok"@) {
            Some(JsonKindView::Bool(b)) => b,
            _ => true,
        },
        ChannelType::DingtalkApp => match text_member(d, "code"@) {
            Some(s) => s.len() == 0,
            None => true,
        },
        ChannelType::Webhook | ChannelType::Email => true,
    }
}

/// Whether a provider's answer accepts the message; an answer that is not
/// JSON does.
pub open spec fn provider_accepts(channel: ChannelType, body: Seq<char>) -> bool {
    match spec_parse_json(body) {
        Ok(d) => document_accepts(channel, d),
        Err(_) => true,
    }
}

fn int_member_of(d: &crate::json::JsonDocument, key: &str) -> (r: Option<i64>)
    ensures
        match r {
            Some(v) => int_member(d.view(), key@) == Some(v as int),
            None => int_member(d.view(), key@) is None,
        },
{
    match member(d, key) {
        Some(JsonKind::Integer(v)) => Some(*v),
        _ => None,
    }
}

fn text_member_of(d: &crate::json::JsonDocument, key: &str) -> (r: Option<String>)
    ensures
        match r {
            Some(s) => text_member(d.view(), key@) == Some(s@),
            None => text_member(d.view(), key@) is None,
        },
{
    match member(d, key) {
        Some(JsonKind::Text(s)) => Some(s.clone()),
        _ => None,
    }
}

/// Whether a provider's parsed JSON answer accepts the message.
pub fn accepts_document(channel: ChannelType, d: &crate::json::JsonDocument) -> (r: bool)
    ensures
        r == document_accepts(channel, d.view()),
{
    match channel {
        ChannelType::Bark => match int_member_of(d, "code") {
            Some(v) => v == 200,
            None => true,
        },
        ChannelType::Pushplus | ChannelType::Serverchan3 => match int_member_of(d, "code") {
            Some(v) => v == 200 || v == 0,
            None => true,
        },
        ChannelType::WecomApp | ChannelType::WecomRobot | ChannelType::DingtalkRobot => match int_member_of(
            d,
            "errcode",
        ) {
            Some(v) => v == 0,
            None => true,
        },
        ChannelType::FeishuRobot => {
            let m = match member(d, "code") {
                Some(k) => Some(k),
                None => member(d, "StatusCode"),
            };
            match m {
                Some(JsonKind::Integer(v)) => *v == 0,
                _ => true,
            }
        },
        ChannelType::Telegram => match member(d, "ok") {
            Some(JsonKind::Bool(b)) => *b,
            _ => true,
        },
        ChannelType::DingtalkApp => match text_member_of(d, "code") {
            Some(s) => s.as_str().unicode_len() == 0,
            None => true,
        },
        ChannelType::Webhook | ChannelType::Email => true,
    }
}

/// Checks a provider's answer for a refusal; a refusal fails with the
/// answer summarized.
pub fn validate_provider_response(channel: ChannelType, body: &str) -> (r: Result<(), NotifyError>)
    ensures
        match r {
            Ok(()) => provider_accepts(channel, body@),
            Err(e) => !provider_accepts(channel, body@) && e.view() == NotifyErrorView::Provider(
                compact_spec(body@, 240),
            ),
        },
{
    let accepted = match parse_json(body) {
        Ok(d) => accepts_document(channel, &d),
        Err(_) => true,
    };
    if accepted {
        Ok(())
    } else {
        Err(NotifyError::Provider(compact(body, 240)))
    }
}

/// How an answer ends a delivery: a status outside 200..=299 fails with the
/// status and the summarized body; a refusal in the provider's answer fails
/// when `inspect` is set; otherwise a receipt.
pub open spec fn finish_spec(channel: ChannelType, inspect: bool, status: u16, body: Seq<char>) -> Result<DeliveryReceiptView, NotifyErrorView> {
    let summary = compact_spec(body, 240);
    if !(200 <= status <= 299) {
        Err(NotifyErrorView::Http { status, body: summary })
    } else if inspect && !provider_accepts(channel, body) {
        Err(NotifyErrorView::Provider(summary))
    } else {
        Ok(DeliveryReceiptView { provider: channel_name(channel), status_code: status, response_summary: summary })
    }
}

pub open spec fn receipt_result(r: Result<DeliveryReceipt, NotifyError>) -> Result<DeliveryReceiptView, NotifyErrorView> {
    match r {
        Ok(receipt) => Ok(receipt.view()),
        Err(e) => Err(e.view()),
    }
}

/// Ends a delivery on the answer to its last request.
pub fn finish(channel: ChannelType, inspect: bool, reply: &HttpReply) -> (r: Result<DeliveryReceipt, NotifyError>)
    ensures
        receipt_result(r) == finish_spec(channel, inspect, reply.status, reply.body@),
{
    let summary = compact(reply.body.as_str(), 240);
    if !(200 <= reply.status && reply.status <= 299) {
        return Err(NotifyError::Http { status: reply.status, body: summary });
    }
    if inspect {
        match validate_provider_response(channel, reply.body.as_str()) {
            Ok(()) => {},
            Err(e) => {
                return Err(e);
            },
        }
    }
    Ok(DeliveryReceipt {
        provider: channel.as_str().to_owned(),
        status_code: reply.status,
        response_summary: summary,
    })
}

/// How an e-mail delivery ends: the server's acceptance gives the SMTP
/// receipt, its refusal an `Email` error with its message.
pub open spec fn mail_result_spec(outcome: Result<(), Seq<char>>) -> Result<DeliveryReceiptView, NotifyErrorView> {
    match outcome {
        Ok(()) => Ok(
            DeliveryReceiptView {
                provider: "email"@,
                status_code: 250,
                response_summary: "SMTP accepted message"@,
            },
        ),
        Err(m) => Err(NotifyErrorView::Email(m)),
    }
}

pub fn mail_result(outcome: Result<(), String>) -> (r: Result<DeliveryReceipt, NotifyError>)
    ensures
        receipt_result(r) == mail_result_spec(
            match outcome {
                Ok(()) => Ok(()),
                Err(m) => Err(m@),
            },
        ),
{
    match outcome {
        Ok(()) => Ok(DeliveryReceipt {
            provider: "email".to_owned(),
            status_code: 250,
            response_summary: "SMTP accepted message".to_owned(),
        }),
        Err(m) => Err(NotifyError::Email(m)),
    }
}


/// The first step of a delivery without a custom body (or whose custom body
/// the channel sends as an ordinary message).
pub open spec fn plain_spec(config: ChannelConfig, m: NotificationMessage, clock: Clock) -> StepView {
    match config {
        ChannelConfig::Webhook(c) => send_or_fail(
            webhook_spec(c, m),
            Pending::Answer { channel: ChannelType::Webhook, inspect: false },
        ),
        ChannelConfig::Bark(c) => StepView::Send { request: bark_view(c, m), then: answer(ChannelType::Bark) },
        ChannelConfig::Pushplus(c) => StepView::Send {
            request: pushplus_view(c, m),
            then: answer(ChannelType::Pushplus),
        },
        ChannelConfig::WecomApp(c) => StepView::Send {
            request: wecom_token_view(c),
            then: Pending::WecomToken { config: c, body: m.body },
        },
        ChannelConfig::WecomRobot(c) => send_or_fail(
            request_on_url(wecom_robot_url(c), text_message(m.body@)),
            answer(ChannelType::WecomRobot),
        ),
        ChannelConfig::DingtalkRobot(c) => send_or_fail(
            request_on_url(dingtalk_robot_url(c, clock.millis), dingtalk_robot_payload(c, m)),
            answer(ChannelType::DingtalkRobot),
        ),
        ChannelConfig::DingtalkApp(c) => StepView::Send {
            request: dingtalk_token_view(c),
            then: Pending::DingtalkToken { config: c, body: m.body },
        },
        ChannelConfig::FeishuRobot(c) => send_or_fail(
            request_on_url(feishu_url(c), feishu_payload(c, m, clock.seconds)),
            answer(ChannelType::FeishuRobot),
        ),
        ChannelConfig::Telegram(c) => StepView::Send {
            request: telegram_view(c, m),
            then: answer(ChannelType::Telegram),
        },
        ChannelConfig::Email(c) => match mail_plan_spec(c, m) {
            Ok(p) => StepView::Mail(p),
            Err(e) => fail(NotifyErrorView::InvalidConfig(e)),
        },
        ChannelConfig::Serverchan3(c) => send_or_fail(
            serverchan_spec(c, m),
            answer(ChannelType::Serverchan3),
        ),
    }
}

/// The message a channel without a raw-JSON endpoint sends for a custom
/// body: the custom text as the body.
pub open spec fn fallback_message(m: NotificationMessage, text: String) -> NotificationMessage {
    NotificationMessage { title: m.title, body: text, custom_body: None }
}

/// The first step of a delivery with a custom body on a channel other than
/// the webhook. The body must be JSON; robot, Telegram and Bark channels
/// forward it as it is, the others send it as an ordinary message.
pub open spec fn custom_spec(config: ChannelConfig, m: NotificationMessage, text: String, clock: Clock) -> StepView {
    custom_parsed_spec(config, m, text, spec_parse_json(text@), clock)
}

/// The first step for a custom body, given what parsing it as JSON gave.
pub open spec fn custom_parsed_spec(
    config: ChannelConfig,
    m: NotificationMessage,
    text: String,
    parsed: Result<JsonDocumentView, Seq<char>>,
    clock: Clock,
) -> StepView {
    match parsed {
        Err(e) => fail(NotifyErrorView::InvalidConfig("custom body must be valid JSON: "@ + e)),
        Ok(d) => match config {
            ChannelConfig::WecomRobot(c) => send_or_fail(
                custom_on_url(wecom_robot_url(c), d.canonical),
                answer(ChannelType::WecomRobot),
            ),
            ChannelConfig::DingtalkRobot(c) => send_or_fail(
                custom_on_url(dingtalk_robot_url(c, clock.millis), d.canonical),
                answer(ChannelType::DingtalkRobot),
            ),
            ChannelConfig::FeishuRobot(c) => send_or_fail(
                feishu_custom_spec(c, d, clock.seconds),
                answer(ChannelType::FeishuRobot),
            ),
            ChannelConfig::Telegram(c) => StepView::Send {
                request: post_json_text_view(telegram_url(c), d.canonical),
                then: answer(ChannelType::Telegram),
            },
            ChannelConfig::Bark(c) => StepView::Send {
                request: post_json_text_view(base_url(c.server_url@) + "/push"@, d.canonical),
                then: answer(ChannelType::Bark),
            },
            _ => plain_spec(config, fallback_message(m, text), clock),
        },
    }
}

/// The first step of a delivery: a configuration that breaks a rule fails
/// at once, with nothing sent.
pub open spec fn start_spec(config: ChannelConfig, m: NotificationMessage, clock: Clock) -> StepView {
    match config_problem(config) {
        Some(p) => fail(NotifyErrorView::InvalidConfig(p)),
        None => match m.custom_body {
            Some(text) => if config_channel(config) != ChannelType::Webhook {
                custom_spec(config, m, text, clock)
            } else {
                plain_spec(config, m, clock)
            },
            None => plain_spec(config, m, clock),
        },
    }
}

fn send_step(request: HttpRequest, then: Pending) -> (r: Step)
    ensures
        r.view() == (StepView::Send { request: request.view(), then }),
{
    Step::Send { request, then }
}

fn send_result(r: Result<HttpRequest, NotifyError>, then: Pending) -> (s: Step)
    ensures
        s.view() == send_or_fail(
            match r {
                Ok(q) => Ok(q.view()),
                Err(e) => Err(e.view()),
            },
            then,
        ),
{
    match r {
        Ok(q) => Step::Send { request: q, then },
        Err(e) => Step::Done(Err(e)),
    }
}

fn plain_step(config: ChannelConfig, m: NotificationMessage, clock: &Clock) -> (r: Step)
    ensures
        r.view() == plain_spec(config, m, *clock),
{
    match config {
        ChannelConfig::Webhook(c) => send_result(
            webhook_request(&c, &m),
            Pending::Answer { channel: ChannelType::Webhook, inspect: false },
        ),
        ChannelConfig::Bark(c) => send_step(bark_request(&c, &m), Pending::Answer { channel: ChannelType::Bark, inspect: true }),
        ChannelConfig::Pushplus(c) => send_step(
            pushplus_request(&c, &m),
            Pending::Answer { channel: ChannelType::Pushplus, inspect: true },
        ),
        ChannelConfig::WecomApp(c) => {
            let request = wecom_token_request(&c);
            send_step(request, Pending::WecomToken { config: c, body: m.body })
        },
        ChannelConfig::WecomRobot(c) => send_result(
            wecom_robot_request(&c, &m),
            Pending::Answer { channel: ChannelType::WecomRobot, inspect: true },
        ),
        ChannelConfig::DingtalkRobot(c) => send_result(
            dingtalk_robot_request(&c, &m, clock.millis),
            Pending::Answer { channel: ChannelType::DingtalkRobot, inspect: true },
        ),
        ChannelConfig::DingtalkApp(c) => {
            let request = dingtalk_token_request(&c);
            send_step(request, Pending::DingtalkToken { config: c, body: m.body })
        },
        ChannelConfig::FeishuRobot(c) => send_result(
            feishu_request(&c, &m, clock.seconds),
            Pending::Answer { channel: ChannelType::FeishuRobot, inspect: true },
        ),
        ChannelConfig::Telegram(c) => send_step(
            telegram_request(&c, &m),
            Pending::Answer { channel: ChannelType::Telegram, inspect: true },
        ),
        ChannelConfig::Email(c) => match plan_email(&c, &m) {
            Ok(p) => Step::Mail(p),
            Err(e) => Step::Done(Err(e)),
        },
        ChannelConfig::Serverchan3(c) => send_result(
            serverchan_request(&c, &m),
            Pending::Answer { channel: ChannelType::Serverchan3, inspect: true },
        ),
    }
}

fn custom_step(config: ChannelConfig, m: NotificationMessage, text: String, clock: &Clock) -> (r: Step)
    ensures
        r.view() == custom_spec(config, m, text, *clock),
{
    let parsed = parse_json(text.as_str());
    custom_delivery(config, m, text, parsed, clock)
}

/// The first step for a custom body on a channel other than the webhook,
/// given what parsing the body as JSON gave.
pub fn custom_delivery(
    config: ChannelConfig,
    m: NotificationMessage,
    text: String,
    parsed: Result<crate::json::JsonDocument, String>,
    clock: &Clock,
) -> (r: Step)
    ensures
        r.view() == custom_parsed_spec(config, m, text, crate::json::parse_result_view(parsed), *clock),
{
    let d = match parsed {
        Ok(d) => d,
        Err(e) => {
            return Step::Done(
                Err(invalid(concat_str("custom body must be valid JSON: ", e.as_str()))),
            );
        },
    };
    match config {
        ChannelConfig::WecomRobot(c) => send_result(
            wecom_robot_custom(&c, d.canonical.as_str()),
            Pending::Answer { channel: ChannelType::WecomRobot, inspect: true },
        ),
        ChannelConfig::DingtalkRobot(c) => send_result(
            dingtalk_robot_custom(&c, d.canonical.as_str(), clock.millis),
            Pending::Answer { channel: ChannelType::DingtalkRobot, inspect: true },
        ),
        ChannelConfig::FeishuRobot(c) => send_result(
            feishu_custom(&c, &d, clock.seconds),
            Pending::Answer { channel: ChannelType::FeishuRobot, inspect: true },
        ),
        ChannelConfig::Telegram(c) => send_step(
            telegram_custom(&c, d.canonical.as_str()),
            Pending::Answer { channel: ChannelType::Telegram, inspect: true },
        ),
        ChannelConfig::Bark(c) => send_step(
            bark_custom(&c, d.canonical.as_str()),
            Pending::Answer { channel: ChannelType::Bark, inspect: true },
        ),
        _ => {
            let fallback = NotificationMessage { title: m.title, body: text, custom_body: None };
            plain_step(config, fallback, clock)
        },
    }
}

/// Starts a delivery: checks the configuration, then says what to send first.
pub fn start_delivery(config: ChannelConfig, message: NotificationMessage, clock: Clock) -> (r: Step)
    ensures
        r.view() == start_spec(config, message, clock),
{
    match validate_config(&config) {
        Err(e) => {
            return Step::Done(Err(e));
        },
        Ok(()) => {},
    }
    let is_webhook = match config {
        ChannelConfig::Webhook(_) => true,
        _ => false,
    };
    if !is_webhook {
        match message.custom_body {
            Some(text) => {
                let m = NotificationMessage { title: message.title, body: message.body, custom_body: None };
                return custom_step(config, m, text, &clock);
            },
            None => {},
        }
    }
    plain_step(config, message, &clock)
}

/// What a token answer leads to: the message request with the token, or a
/// failure when the answer is not JSON or holds no token.
pub open spec fn reply_spec(then: Pending, status: u16, body: Seq<char>) -> StepView {
    match then {
        Pending::Answer { channel, inspect } => StepView::Done(finish_spec(channel, inspect, status, body)),
        _ => token_answer_spec(then, status, spec_parse_json(body)),
    }
}

/// What a token answer leads to, given what parsing it as JSON gave.
pub open spec fn token_answer_spec(
    then: Pending,
    status: u16,
    parsed: Result<JsonDocumentView, Seq<char>>,
) -> StepView {
    match then {
        Pending::Answer { .. } => fail(NotifyErrorView::Request("error decoding response body"@)),
        Pending::WecomToken { config, body: text } => match parsed {
            Err(_) => fail(NotifyErrorView::Request("error decoding response body"@)),
            Ok(d) => match text_member(d, "access_token"@) {
                None => fail(
                    NotifyErrorView::Provider(
                        "WeCom token HTTP "@ + decimal(status as nat) + ": "@ + compact_spec(
                            d.canonical,
                            240,
                        ),
                    ),
                ),
                Some(token) => send_or_fail(
                    wecom_message_spec(config, text@, token),
                    answer(ChannelType::WecomApp),
                ),
            },
        },
        Pending::DingtalkToken { config, body: text } => match parsed {
            Err(_) => fail(NotifyErrorView::Request("error decoding response body"@)),
            Ok(d) => match text_member(d, "accessToken"@) {
                None => fail(NotifyErrorView::Provider(compact_spec(d.canonical, 240))),
                Some(token) => StepView::Send {
                    request: dingtalk_message_view(config, text@, token),
                    then: answer(ChannelType::DingtalkApp),
                },
            },
        },
    }
}

/// Takes the answer to the last request and says what to do next.
pub fn on_reply(then: Pending, reply: HttpReply) -> (r: Step)
    ensures
        r.view() == reply_spec(then, reply.status, reply.body@),
{
    match then {
        Pending::Answer { channel, inspect } => Step::Done(finish(channel, inspect, &reply)),
        _ => {
            let parsed = parse_json(reply.body.as_str());
            on_token_answer(then, reply.status, parsed)
        },
    }
}

/// Takes a token answer, parsed as JSON, and says what to do next.
pub fn on_token_answer(then: Pending, status: u16, parsed: Result<crate::json::JsonDocument, String>) -> (r: Step)
    requires
        !(then is Answer),
    ensures
        r.view() == token_answer_spec(then, status, crate::json::parse_result_view(parsed)),
{
    let d = match parsed {
        Ok(d) => d,
        Err(_) => {
            return Step::Done(Err(NotifyError::Request("error decoding response body".to_owned())));
        },
    };
    match then {
        Pending::Answer { .. } => Step::Done(Err(NotifyError::Request("error decoding response body".to_owned()))),
        Pending::WecomToken { config, body } => {
            match text_member_of(&d, "access_token") {
                None => {
                    let mut msg = concat_str("WeCom token HTTP ", u64_to_decimal(status as u64).as_str());
                    msg.append(": ");
                    msg.append(compact(d.canonical.as_str(), 240).as_str());
                    Step::Done(Err(NotifyError::Provider(msg)))
                },
                Some(token) => send_result(
                    wecom_message_request(&config, body.as_str(), token.as_str()),
                    Pending::Answer { channel: ChannelType::WecomApp, inspect: true },
                ),
            }
        },
        Pending::DingtalkToken { config, body } => {
            match text_member_of(&d, "accessToken") {
                None => Step::Done(Err(NotifyError::Provider(compact(d.canonical.as_str(), 240)))),
                Some(token) => send_step(
                    dingtalk_message_request(&config, body.as_str(), token.as_str()),
                    Pending::Answer { channel: ChannelType::DingtalkApp, inspect: true },
                ),
            }
        },
    }
}

/// A configuration that breaks a rule ends the delivery at once with
/// `InvalidConfig` and that rule's complaint; nothing is sent.
pub proof fn lemma_invalid_config_sends_nothing(c: ChannelConfig, m: NotificationMessage, clock: Clock)
    requires
        config_problem(c) is Some,
    ensures
        start_spec(c, m, clock) == fail(NotifyErrorView::InvalidConfig(config_problem(c)->0)),
{
}

/// An answer with a status outside 200..=299 ends in an `Http` error with
/// that status, whatever the channel and whatever the answer says.
pub proof fn lemma_failed_status_is_http_error(channel: ChannelType, inspect: bool, status: u16, body: Seq<char>)
    requires
        !(200 <= status <= 299),
    ensures
        finish_spec(channel, inspect, status, body) == Err::<DeliveryReceiptView, NotifyErrorView>(
            NotifyErrorView::Http { status, body: compact_spec(body, 240) },
        ),
{
}

/// Every receipt names the channel that delivered and the status it got;
/// an answer that is not JSON never counts as a refusal.
pub proof fn lemma_receipt_names_channel(channel: ChannelType, inspect: bool, status: u16, body: Seq<char>)
    ensures
        finish_spec(channel, inspect, status, body) matches Ok(r) ==> r.provider == channel_name(channel)
            && r.status_code == status && r.response_summary == compact_spec(body, 240),
        spec_parse_json(body) is Err && 200 <= status <= 299 ==> finish_spec(
            channel,
            inspect,
            status,
            body,
        ) is Ok,
{
}

/// A webhook `POST` sends the message text (the custom body when there is
/// one) and, with a secret, signs exactly that text.
pub proof fn lemma_webhook_signs_what_it_sends(c: crate::notify::config::WebhookConfig, m: NotificationMessage)
    requires
        crate::notify::request::webhook_method(c.http_method@) == Some(crate::notify::request::HttpMethod::Post),
        !crate::text::is_blank(c.secret@),
    ensures
        webhook_spec(c, m) matches Ok(r) && r.body == crate::notify::request::RequestBodyView::Text(
            crate::notify::request::message_text(m),
        ) && r.headers.contains(
            (
                "X-Webhook-Signature"@,
                crate::codec::hex_lower(
                    crate::codec::spec_hmac_sha256(
                        vstd::utf8::encode_utf8(crate::text::trim(c.secret@)),
                        vstd::utf8::encode_utf8(crate::notify::request::message_text(m)),
                    ),
                ),
            ),
        ),
{
    let r = crate::notify::request::webhook_view(c, m, crate::notify::request::HttpMethod::Post);
    let sig = (
        "X-Webhook-Signature"@,
        crate::codec::hex_lower(
            crate::codec::spec_hmac_sha256(
                vstd::utf8::encode_utf8(crate::text::trim(c.secret@)),
                vstd::utf8::encode_utf8(crate::notify::request::message_text(m)),
            ),
        ),
    );
    assert(r.headers[r.headers.len() - 2] == sig);
}

/// The text of the value a custom body parses to, as `serde_json` writes
/// it back out (the body itself when it does not parse).
pub open spec fn parsed_text(text: Seq<char>) -> Seq<char> {
    match spec_parse_json(text) {
        Ok(d) => d.canonical,
        Err(_) => text,
    }
}

/// A robot channel with a webhook URL forwards a custom JSON body to that
/// URL as the value it parses to, with nothing added.
pub proof fn lemma_robot_forwards_custom_body(
    c: crate::notify::config::WecomRobotConfig,
    m: NotificationMessage,
    clock: Clock,
)
    requires
        !crate::text::is_blank(c.webhook_url@),
        m.custom_body matches Some(text) && spec_parse_json(text@) is Ok,
    ensures
        start_spec(ChannelConfig::WecomRobot(c), m, clock) == (StepView::Send {
            request: post_json_text_view(crate::text::trim(c.webhook_url@), parsed_text(m.custom_body->0@)),
            then: answer(ChannelType::WecomRobot),
        }),
{
}

/// The channels that post a custom JSON body as it is: the WeCom and
/// DingTalk robots, Telegram and Bark.
pub open spec fn takes_raw_json(c: ChannelConfig) -> bool {
    match c {
        ChannelConfig::WecomRobot(_) | ChannelConfig::DingtalkRobot(_) | ChannelConfig::Telegram(_)
        | ChannelConfig::Bark(_) => true,
        _ => false,
    }
}

/// A custom JSON body on a channel that takes raw JSON is sent as the value
/// it parses to, with nothing added, once the configuration passes its
/// checks.
pub proof fn lemma_custom_body_sent_as_parsed(c: ChannelConfig, m: NotificationMessage, clock: Clock)
    requires
        config_problem(c) is None,
        m.custom_body is Some,
        spec_parse_json(m.custom_body->0@) is Ok,
        takes_raw_json(c),
    ensures
        (start_spec(c, m, clock) matches StepView::Send { request, then } && then == answer(
            config_channel(c),
        ) && request.body == crate::notify::request::RequestBodyView::JsonText(
            parsed_text(m.custom_body->0@),
        )),
{
}

/// The channel whose answer a delivery waits for.
pub open spec fn pending_channel(p: Pending) -> ChannelType {
    match p {
        Pending::Answer { channel, .. } => channel,
        Pending::WecomToken { .. } => ChannelType::WecomApp,
        Pending::DingtalkToken { .. } => ChannelType::DingtalkApp,
    }
}

/// A delivery carried on from step `s`: each request gets the next of
/// `replies` (status and body), an e-mail gets the outcome `mail`, until the
/// delivery is done or the replies run out.
pub open spec fn run(s: StepView, replies: Seq<(u16, Seq<char>)>, mail: Result<(), Seq<char>>) -> StepView
    decreases replies.len(),
{
    match s {
        StepView::Send { then, .. } => if replies.len() == 0 {
            s
        } else {
            run(reply_spec(then, replies[0].0, replies[0].1), replies.drop_first(), mail)
        },
        StepView::Mail(_) => StepView::Done(mail_result_spec(mail)),
        StepView::Done(_) => s,
    }
}

/// Whether step `s` belongs to a delivery on channel `ch`: a request waits
/// for that channel's answer, an e-mail is the e-mail channel's, and a
/// delivery that is already over has failed.
pub open spec fn on_channel(s: StepView, ch: ChannelType) -> bool {
    match s {
        StepView::Send { then, .. } => pending_channel(then) == ch && ch != ChannelType::Email,
        StepView::Mail(_) => ch == ChannelType::Email,
        StepView::Done(r) => r is Err,
    }
}

/// Whether the run from `s` ends with receipt `r` on the `k`-th reply: it
/// still waits after the replies before it, is done with `r` right after
/// it, and `r` carries that reply's 2xx status and summarized body.
pub open spec fn ended_at(
    s: StepView,
    replies: Seq<(u16, Seq<char>)>,
    mail: Result<(), Seq<char>>,
    k: int,
    r: DeliveryReceiptView,
) -> bool {
    &&& 0 <= k < replies.len()
    &&& run(s, replies.take(k), mail) is Send
    &&& run(s, replies.take(k + 1), mail) == StepView::Done(Ok(r))
    &&& 200 <= replies[k].0 <= 299
    &&& r.status_code == replies[k].0
    &&& r.response_summary == compact_spec(replies[k].1, 240)
}

/// What a receipt of a delivery on channel `ch` from step `s` says.
pub open spec fn receipt_holds(
    s: StepView,
    ch: ChannelType,
    replies: Seq<(u16, Seq<char>)>,
    mail: Result<(), Seq<char>>,
    r: DeliveryReceiptView,
) -> bool {
    &&& r.provider == channel_name(ch)
    &&& ch == ChannelType::Email ==> r.status_code == 250 && r.response_summary == "SMTP accepted message"@
    &&& ch != ChannelType::Email ==> exists|k: int| #[trigger] ended_at(s, replies, mail, k, r)
}

proof fn lemma_start_on_channel(c: ChannelConfig, m: NotificationMessage, clock: Clock)
    ensures
        on_channel(start_spec(c, m, clock), config_channel(c)),
{
}

proof fn lemma_reply_on_channel(then: Pending, ch: ChannelType, status: u16, body: Seq<char>)
    requires
        pending_channel(then) == ch,
        ch != ChannelType::Email,
    ensures
        reply_spec(then, status, body) matches StepView::Done(Ok(r)) ==> {
            &&& r.provider == channel_name(ch)
            &&& 200 <= status <= 299
            &&& r.status_code == status
            &&& r.response_summary == compact_spec(body, 240)
        },
        !(reply_spec(then, status, body) matches StepView::Done(Ok(_))) ==> on_channel(
            reply_spec(then, status, body),
            ch,
        ),
{
}

proof fn lemma_run_receipt(
    s: StepView,
    ch: ChannelType,
    replies: Seq<(u16, Seq<char>)>,
    mail: Result<(), Seq<char>>,
)
    requires
        on_channel(s, ch),
    ensures
        run(s, replies, mail) matches StepView::Done(Ok(r)) ==> receipt_holds(s, ch, replies, mail, r),
    decreases replies.len(),
{
    match s {
        StepView::Send { request, then } => {
            if replies.len() > 0 {
                let s1 = reply_spec(then, replies[0].0, replies[0].1);
                let rest = replies.drop_first();
                lemma_reply_on_channel(then, ch, replies[0].0, replies[0].1);
                assert(run(s, replies, mail) == run(s1, rest, mail));
                assert(replies.take(0).len() == 0);
                assert(run(s, replies.take(0), mail) == s);
                if let StepView::Done(Ok(r1)) = s1 {
                    assert(replies.take(1)[0] == replies[0]);
                    assert(replies.take(1).drop_first() =~= Seq::<(u16, Seq<char>)>::empty());
                    assert(run(s, replies.take(1), mail) == run(s1, Seq::<(u16, Seq<char>)>::empty(), mail));
                    assert(ended_at(s, replies, mail, 0, r1));
                } else {
                    lemma_run_receipt(s1, ch, rest, mail);
                    if let StepView::Done(Ok(r)) = run(s1, rest, mail) {
                        if s1 is Send {
                            let k1 = choose|k: int| #[trigger] ended_at(s1, rest, mail, k, r);
                            let k = k1 + 1;
                            assert(replies.take(k)[0] == replies[0]);
                            assert(replies.take(k).drop_first() =~= rest.take(k1));
                            assert(run(s, replies.take(k), mail) == run(s1, rest.take(k1), mail));
                            assert(replies.take(k + 1)[0] == replies[0]);
                            assert(replies.take(k + 1).drop_first() =~= rest.take(k1 + 1));
                            assert(run(s, replies.take(k + 1), mail) == run(s1, rest.take(k1 + 1), mail));
                            assert(replies[k] == rest[k1]);
                            assert(ended_at(s, replies, mail, k, r));
                        }
                    }
                }
            }
        },
        StepView::Mail(_) => {},
        StepView::Done(_) => {},
    }
}

/// Every receipt names the channel of the configuration it was sent on. An
/// e-mail receipt carries the SMTP acceptance; any other receipt carries
/// the 2xx status and the summarized body of the reply that ended the
/// delivery: the delivery still waited before that reply and was done with
/// the receipt right after it.
pub proof fn lemma_delivery_receipt(
    c: ChannelConfig,
    m: NotificationMessage,
    clock: Clock,
    replies: Seq<(u16, Seq<char>)>,
    mail: Result<(), Seq<char>>,
)
    ensures
        run(start_spec(c, m, clock), replies, mail) matches StepView::Done(Ok(r)) ==> receipt_holds(
            start_spec(c, m, clock),
            config_channel(c),
            replies,
            mail,
            r,
        ),
{
    lemma_start_on_channel(c, m, clock);
    lemma_run_receipt(start_spec(c, m, clock), config_channel(c), replies, mail);
}

} // verus!
