use simadmin::codec::{encode, hmac_base64};
use simadmin::json::Json;
use simadmin::notify::channel::ChannelType;
use simadmin::notify::config::{
    at_all, bark_server, default_true, post_method, smtp_port, smtp_security, telegram_api,
    validate_config, wecom_api, ChannelConfig, EmailConfig,
};
use simadmin::notify::delivery::{
    finish, mail_result, on_reply, start_delivery, Clock, HttpReply, Pending, Step,
};
use simadmin::notify::email::{mailbox, plan_email, SmtpSecurity};
use simadmin::notify::error::{invalid, DeliveryReceipt, NotificationMessage, NotifyError};
use simadmin::notify::request::{robot_url, serverchan_uid, HttpMethod, HttpRequest, RequestBody};

fn clock() -> Clock {
    Clock { seconds: 1_700_000_000, millis: 1_700_000_000_123 }
}

fn msg(title: &str, body: &str) -> NotificationMessage {
    NotificationMessage { title: title.to_string(), body: body.to_string(), custom_body: None }
}

fn custom(title: &str, body: &str, text: &str) -> NotificationMessage {
    NotificationMessage {
        title: title.to_string(),
        body: body.to_string(),
        custom_body: Some(text.to_string()),
    }
}

fn sent(step: Step) -> (HttpRequest, Pending) {
    match step {
        Step::Send { request, then } => (request, then),
        other => panic!("expected a request, got {:?}", other),
    }
}

fn failed(step: Step) -> NotifyError {
    match step {
        Step::Done(Err(e)) => e,
        other => panic!("expected a failure, got {:?}", other),
    }
}

fn invalid_text(step: Step) -> String {
    match failed(step) {
        NotifyError::InvalidConfig(m) => m,
        other => panic!("expected InvalidConfig, got {:?}", other),
    }
}

fn receipt(step: Step) -> DeliveryReceipt {
    match step {
        Step::Done(Ok(r)) => r,
        other => panic!("expected a receipt, got {:?}", other),
    }
}

fn object(body: &RequestBody) -> &Vec<(String, Json)> {
    match body {
        RequestBody::Json(Json::Object(fields)) => fields,
        other => panic!("expected a JSON object, got {:?}", other),
    }
}

fn field<'a>(fields: &'a [(String, Json)], key: &str) -> Option<&'a Json> {
    fields.iter().find(|(k, _)| k == key).map(|(_, v)| v)
}

fn text_field(fields: &[(String, Json)], key: &str) -> Option<String> {
    match field(fields, key) {
        Some(Json::Str(s)) => Some(s.clone()),
        None => None,
        other => panic!("member {} is not a string: {:?}", key, other),
    }
}

fn keys(fields: &[(String, Json)]) -> Vec<&str> {
    fields.iter().map(|(k, _)| k.as_str()).collect()
}

fn header<'a>(r: &'a HttpRequest, name: &str) -> Option<&'a str> {
    r.headers.iter().find(|(n, _)| n.eq_ignore_ascii_case(name)).map(|(_, v)| v.as_str())
}

fn unset_bark() -> simadmin::notify::config::BarkConfig {
    match ChannelConfig::unset(ChannelType::Bark) {
        ChannelConfig::Bark(c) => c,
        _ => unreachable!(),
    }
}

fn unset_dingtalk_app() -> simadmin::notify::config::DingtalkAppConfig {
    match ChannelConfig::unset(ChannelType::DingtalkApp) {
        ChannelConfig::DingtalkApp(c) => c,
        _ => unreachable!(),
    }
}

fn unset_dingtalk_robot() -> simadmin::notify::config::DingtalkRobotConfig {
    match ChannelConfig::unset(ChannelType::DingtalkRobot) {
        ChannelConfig::DingtalkRobot(c) => c,
        _ => unreachable!(),
    }
}

fn unset_email() -> simadmin::notify::config::EmailConfig {
    match ChannelConfig::unset(ChannelType::Email) {
        ChannelConfig::Email(c) => c,
        _ => unreachable!(),
    }
}

fn unset_feishu_robot() -> simadmin::notify::config::FeishuRobotConfig {
    match ChannelConfig::unset(ChannelType::FeishuRobot) {
        ChannelConfig::FeishuRobot(c) => c,
        _ => unreachable!(),
    }
}

fn unset_pushplus() -> simadmin::notify::config::PushplusConfig {
    match ChannelConfig::unset(ChannelType::Pushplus) {
        ChannelConfig::Pushplus(c) => c,
        _ => unreachable!(),
    }
}

fn unset_serverchan3() -> simadmin::notify::config::Serverchan3Config {
    match ChannelConfig::unset(ChannelType::Serverchan3) {
        ChannelConfig::Serverchan3(c) => c,
        _ => unreachable!(),
    }
}

fn unset_telegram() -> simadmin::notify::config::TelegramConfig {
    match ChannelConfig::unset(ChannelType::Telegram) {
        ChannelConfig::Telegram(c) => c,
        _ => unreachable!(),
    }
}

fn unset_webhook() -> simadmin::notify::config::WebhookConfig {
    match ChannelConfig::unset(ChannelType::Webhook) {
        ChannelConfig::Webhook(c) => c,
        _ => unreachable!(),
    }
}

fn unset_wecom_app() -> simadmin::notify::config::WecomAppConfig {
    match ChannelConfig::unset(ChannelType::WecomApp) {
        ChannelConfig::WecomApp(c) => c,
        _ => unreachable!(),
    }
}

fn unset_wecom_robot() -> simadmin::notify::config::WecomRobotConfig {
    match ChannelConfig::unset(ChannelType::WecomRobot) {
        ChannelConfig::WecomRobot(c) => c,
        _ => unreachable!(),
    }
}

#[test]
fn defaults_are_the_documented_values() {
    assert_eq!(post_method(), "POST");
    assert_eq!(bark_server(), "https://api.day.app");
    assert_eq!(wecom_api(), "https://qyapi.weixin.qq.com");
    assert_eq!(telegram_api(), "https://api.telegram.org");
    assert_eq!(at_all(), "@all");
    assert!(default_true());
    assert_eq!(smtp_port(), 465);
    assert_eq!(smtp_security(), "implicit_tls");
}

#[test]
fn channel_names_and_secret_fields() {
    let names: Vec<&str> = ChannelType::ALL.iter().map(|c| c.as_str()).collect();
    assert_eq!(
        names,
        vec![
            "webhook", "bark", "pushplus", "wecom_app", "wecom_robot", "dingtalk_robot",
            "dingtalk_app", "feishu_robot", "telegram", "email", "serverchan3"
        ]
    );
    let mut sorted = names.clone();
    sorted.sort();
    sorted.dedup();
    assert_eq!(sorted.len(), names.len());
    assert_eq!(ChannelType::DingtalkRobot.secret_fields(), &["access_token", "secret"]);
    assert_eq!(ChannelType::Email.secret_fields(), &["password"]);
    assert_eq!(ChannelType::Bark.secret_fields(), &["device_key"]);
}

#[test]
fn unset_configs_name_the_missing_field() {
    let expected = [
        (ChannelType::Webhook, "Webhook URL is required"),
        (ChannelType::Bark, "Bark device key is required"),
        (ChannelType::Pushplus, "PushPlus token is required"),
        (ChannelType::WecomApp, "WeCom CorpID is required"),
        (ChannelType::WecomRobot, "WeCom robot key is required"),
        (ChannelType::DingtalkRobot, "DingTalk access token is required"),
        (ChannelType::DingtalkApp, "DingTalk AppKey is required"),
        (ChannelType::FeishuRobot, "Feishu robot token is required"),
        (ChannelType::Telegram, "Telegram bot token is required"),
        (ChannelType::Email, "SMTP host is required"),
        (ChannelType::Serverchan3, "ServerChan SendKey is required"),
    ];
    for (channel, text) in expected {
        match validate_config(&ChannelConfig::unset(channel)) {
            Err(NotifyError::InvalidConfig(m)) => assert_eq!(m, text),
            other => panic!("{:?}: {:?}", channel, other),
        }
    }
}

#[test]
fn webhook_method_is_checked_case_insensitively() {
    let mut c = unset_webhook();
    c.url = "http://hook.test".to_string();
    c.http_method = "get".to_string();
    assert!(validate_config(&ChannelConfig::Webhook(c.clone())).is_ok());
    c.http_method = "PUT".to_string();
    match validate_config(&ChannelConfig::Webhook(c.clone())) {
        Err(NotifyError::InvalidConfig(m)) => assert_eq!(m, "Webhook only supports GET and POST"),
        other => panic!("{:?}", other),
    }
    c.http_method = "  ".to_string();
    assert!(validate_config(&ChannelConfig::Webhook(c)).is_err());
}

#[test]
fn invalid_config_is_reported_before_anything_is_sent() {
    let e = invalid_text(start_delivery(ChannelConfig::unset(ChannelType::Telegram), msg("t", "b"), clock()));
    assert_eq!(e, "Telegram bot token is required");
}

#[test]
fn error_messages_follow_the_display_texts() {
    assert_eq!(invalid("x".to_string()).message(), "invalid channel configuration: x");
    assert_eq!(NotifyError::Request("timeout".into()).message(), "notification request failed: timeout");
    assert_eq!(
        NotifyError::Http { status: 503, body: "busy".into() }.message(),
        "notification endpoint returned HTTP 503: busy"
    );
    assert_eq!(
        NotifyError::Provider("no".into()).message(),
        "notification provider rejected the request: no"
    );
    assert_eq!(NotifyError::Email("down".into()).message(), "email delivery failed: down");
}

#[test]
fn webhook_get_sends_no_body_but_signs_and_titles() {
    let mut c = unset_webhook();
    c.url = " http://hook.test/x ".to_string();
    c.http_method = "GET".to_string();
    c.secret = " s ".to_string();
    let (r, then) = sent(start_delivery(ChannelConfig::Webhook(c), msg("T", "plain"), clock()));
    assert_eq!(r.method, HttpMethod::Get);
    assert_eq!(r.url, "http://hook.test/x");
    assert!(matches!(r.body, RequestBody::Empty));
    assert_eq!(header(&r, "content-type"), None);
    assert_eq!(header(&r, "x-webhook-signature"), Some(simadmin::codec::hmac_hex("s", b"plain").as_str()));
    assert_eq!(header(&r, "x-simadmin-title"), Some("T"));
    assert!(matches!(then, Pending::Answer { channel: ChannelType::Webhook, inspect: false }));
}

#[test]
fn webhook_content_type_follows_the_body() {
    let mut c = unset_webhook();
    c.url = "http://hook.test".to_string();
    let (r, _) = sent(start_delivery(ChannelConfig::Webhook(c.clone()), msg("T", "plain text"), clock()));
    assert_eq!(header(&r, "content-type"), Some("text/plain; charset=utf-8"));
    assert_eq!(header(&r, "x-webhook-signature"), None);
    let (r, _) = sent(start_delivery(ChannelConfig::Webhook(c.clone()), msg("T", "[1,2]"), clock()));
    assert_eq!(header(&r, "content-type"), Some("application/json; charset=utf-8"));
    c.headers = vec![("content-TYPE".to_string(), "text/csv".to_string())];
    let (r, _) = sent(start_delivery(ChannelConfig::Webhook(c), msg("T", "[1,2]"), clock()));
    assert_eq!(r.headers[0], ("content-TYPE".to_string(), "text/csv".to_string()));
    assert_eq!(r.headers.iter().filter(|(n, _)| n.eq_ignore_ascii_case("content-type")).count(), 1);
}

#[test]
fn webhook_answer_is_not_inspected() {
    let mut c = unset_webhook();
    c.url = "http://hook.test".to_string();
    let (_, then) = sent(start_delivery(ChannelConfig::Webhook(c), msg("T", "b"), clock()));
    let r = receipt(on_reply(then, HttpReply { status: 204, body: "{\"code\": 500}".into() }));
    assert_eq!(r.provider, "webhook");
    assert_eq!(r.status_code, 204);
    assert_eq!(r.response_summary, "{\"code\": 500}");
}

#[test]
fn bark_payload_has_optional_fields_and_history() {
    let mut c = unset_bark();
    c.server_url = "https://bark.test//".to_string();
    c.device_key = "key/1".to_string();
    c.group = " alerts ".to_string();
    c.sound = "  ".to_string();
    c.auto_copy = true;
    c.save_history = false;
    let (r, _) = sent(start_delivery(ChannelConfig::Bark(c), msg("T", "B"), clock()));
    assert_eq!(r.url, "https://bark.test/key%2F1");
    let f = object(&r.body);
    assert_eq!(keys(f), vec!["title", "body", "group", "automaticallyCopy", "copy", "isArchive"]);
    assert_eq!(text_field(f, "group").as_deref(), Some("alerts"));
    assert_eq!(text_field(f, "copy").as_deref(), Some("B"));
    assert!(matches!(field(f, "automaticallyCopy"), Some(Json::Int(1))));
    assert!(matches!(field(f, "isArchive"), Some(Json::Int(0))));
}

#[test]
fn bark_refusal_fails_the_delivery() {
    let mut c = unset_bark();
    c.device_key = "k".to_string();
    let (r, then) = sent(start_delivery(ChannelConfig::Bark(c), msg("T", "B"), clock()));
    assert_eq!(r.url, "https://api.day.app/k");
    match failed(on_reply(then, HttpReply { status: 200, body: "{\"code\": 400}".into() })) {
        NotifyError::Provider(m) => assert_eq!(m, "{\"code\": 400}"),
        other => panic!("{:?}", other),
    }
}

#[test]
fn pushplus_default_url_and_fields() {
    let mut c = unset_pushplus();
    c.token = " tok ".to_string();
    c.topic = "team".to_string();
    c.callback_url = "https://cb.test".to_string();
    let (r, then) = sent(start_delivery(ChannelConfig::Pushplus(c), msg("T", "B"), clock()));
    assert_eq!(r.method, HttpMethod::Post);
    assert_eq!(r.url, "https://www.pushplus.plus/send");
    let f = object(&r.body);
    assert_eq!(keys(f), vec!["token", "title", "content", "topic", "callbackUrl"]);
    assert_eq!(text_field(f, "token").as_deref(), Some("tok"));
    let done = receipt(on_reply(then, HttpReply { status: 200, body: "{\"code\":200}".into() }));
    assert_eq!(done.provider, "pushplus");
}

#[test]
fn http_failure_carries_status_and_summary() {
    let e = finish(ChannelType::Telegram, true, &HttpReply { status: 502, body: " bad \n gateway ".into() });
    match e {
        Err(NotifyError::Http { status, body }) => {
            assert_eq!(status, 502);
            assert_eq!(body, "bad gateway");
        }
        other => panic!("{:?}", other),
    }
    assert!(matches!(
        finish(ChannelType::Bark, true, &HttpReply { status: 199, body: String::new() }),
        Err(NotifyError::Http { status: 199, .. })
    ));
    assert!(finish(ChannelType::Bark, true, &HttpReply { status: 299, body: String::new() }).is_ok());
}

#[test]
fn wecom_app_fetches_a_token_then_sends() {
    let mut c = unset_wecom_app();
    c.api_base_url = "https://wecom.test/".to_string();
    c.corp_id = " corp ".to_string();
    c.agent_id = " 1000002 ".to_string();
    c.secret = "sec".to_string();
    c.to_user = "  ".to_string();
    c.safe = true;
    let (r, then) = sent(start_delivery(ChannelConfig::WecomApp(c), msg("T", "hello"), clock()));
    assert_eq!(r.method, HttpMethod::Get);
    assert_eq!(r.url, "https://wecom.test/cgi-bin/gettoken");
    assert_eq!(
        r.query,
        vec![("corpid".to_string(), "corp".to_string()), ("corpsecret".to_string(), "sec".to_string())]
    );
    let (r2, then2) = sent(on_reply(then, HttpReply { status: 200, body: "{\"access_token\":\"TOK\"}".into() }));
    assert_eq!(r2.url, "https://wecom.test/cgi-bin/message/send");
    assert_eq!(r2.query, vec![("access_token".to_string(), "TOK".to_string())]);
    let f = object(&r2.body);
    assert_eq!(keys(f), vec!["touser", "toparty", "totag", "msgtype", "agentid", "text", "safe"]);
    assert_eq!(text_field(f, "touser").as_deref(), Some("@all"));
    assert!(matches!(field(f, "agentid"), Some(Json::Int(1000002))));
    assert!(matches!(field(f, "safe"), Some(Json::Int(1))));
    match field(f, "text") {
        Some(Json::Object(inner)) => assert_eq!(text_field(inner, "content").as_deref(), Some("hello")),
        other => panic!("{:?}", other),
    }
    match failed(on_reply(then2, HttpReply { status: 200, body: "{\"errcode\":40014}".into() })) {
        NotifyError::Provider(m) => assert_eq!(m, "{\"errcode\":40014}"),
        other => panic!("{:?}", other),
    }
}

#[test]
fn wecom_app_token_failures() {
    let mut c = unset_wecom_app();
    c.corp_id = "corp".to_string();
    c.agent_id = "12".to_string();
    c.secret = "sec".to_string();
    let (_, then) = sent(start_delivery(ChannelConfig::WecomApp(c.clone()), msg("T", "b"), clock()));
    match failed(on_reply(then.clone(), HttpReply { status: 401, body: "{\"errcode\": 40001,  \"errmsg\":\"bad\"}".into() })) {
        NotifyError::Provider(m) => assert_eq!(m, "WeCom token HTTP 401: {\"errcode\":40001,\"errmsg\":\"bad\"}"),
        other => panic!("{:?}", other),
    }
    match failed(on_reply(then, HttpReply { status: 200, body: "oops".into() })) {
        NotifyError::Request(m) => assert_eq!(m, "error decoding response body"),
        other => panic!("{:?}", other),
    }
    c.agent_id = "twelve".to_string();
    let (_, then) = sent(start_delivery(ChannelConfig::WecomApp(c), msg("T", "b"), clock()));
    assert_eq!(
        invalid_text(on_reply(then, HttpReply { status: 200, body: "{\"access_token\":\"x\"}".into() })),
        "WeCom agent_id must be numeric"
    );
}

#[test]
fn dingtalk_app_fetches_a_token_then_sends() {
    let mut c = unset_dingtalk_app();
    c.app_key = "ak".to_string();
    c.app_secret = "as".to_string();
    c.open_conversation_id = "cid".to_string();
    let (r, then) = sent(start_delivery(ChannelConfig::DingtalkApp(c), msg("T", "say \"hi\""), clock()));
    assert_eq!(r.url, "https://api.dingtalk.com/v1.0/oauth2/accessToken");
    let f = object(&r.body);
    assert_eq!(text_field(f, "appKey").as_deref(), Some("ak"));
    assert_eq!(text_field(f, "appSecret").as_deref(), Some("as"));
    let (r2, then2) = sent(on_reply(then.clone(), HttpReply { status: 200, body: "{\"accessToken\":\"AT\"}".into() }));
    assert_eq!(r2.url, "https://api.dingtalk.com/v1.0/robot/groupMessages/send");
    assert_eq!(header(&r2, "x-acs-dingtalk-access-token"), Some("AT"));
    let f = object(&r2.body);
    assert_eq!(keys(f), vec!["robotCode", "openConversationId", "msgKey", "msgParam"]);
    assert_eq!(text_field(f, "robotCode").as_deref(), Some("ak"));
    assert_eq!(text_field(f, "msgKey").as_deref(), Some("sampleText"));
    assert_eq!(text_field(f, "msgParam").as_deref(), Some("{\"content\":\"say \\\"hi\\\"\"}"));
    match failed(on_reply(then2, HttpReply { status: 200, body: "{\"code\":\"Forbidden\"}".into() })) {
        NotifyError::Provider(_) => {}
        other => panic!("{:?}", other),
    }
    match failed(on_reply(then, HttpReply { status: 400, body: "{\"code\":\"InvalidAppKey\"}".into() })) {
        NotifyError::Provider(m) => assert_eq!(m, "{\"code\":\"InvalidAppKey\"}"),
        other => panic!("{:?}", other),
    }
}

#[test]
fn wecom_robot_uses_key_when_no_url() {
    let mut c = unset_wecom_robot();
    c.key = "a b".to_string();
    let (r, _) = sent(start_delivery(ChannelConfig::WecomRobot(c), msg("T", "B"), clock()));
    assert_eq!(r.url, "https://qyapi.weixin.qq.com/cgi-bin/webhook/send?key=a%20b");
    let f = object(&r.body);
    assert_eq!(text_field(f, "msgtype").as_deref(), Some("text"));
}

#[test]
fn robot_url_prefers_the_url() {
    assert_eq!(robot_url(" http://u ", "t", "p=").unwrap(), "http://u");
    assert_eq!(robot_url("", " t/1 ", "p=").unwrap(), "p=t%2F1");
    match robot_url(" ", "", "p=") {
        Err(NotifyError::InvalidConfig(m)) => assert_eq!(m, "robot webhook URL or token is required"),
        other => panic!("{:?}", other),
    }
}

#[test]
fn dingtalk_robot_signs_its_url() {
    let mut c = unset_dingtalk_robot();
    c.access_token = "tok".to_string();
    c.secret = " SEC ".to_string();
    c.at_mobiles = "138, 139;\n140".to_string();
    c.at_all = true;
    let (r, _) = sent(start_delivery(ChannelConfig::DingtalkRobot(c), msg("T", "B"), clock()));
    assert_eq!(
        r.url,
        "https://oapi.dingtalk.com/robot/send?access_token=tok&timestamp=1700000000123&sign=JAZy9Uq81Yr1Y%2Ba6f9W0sf2UPnxJG%2B1FSZ21g9nsxwo%3D"
    );
    let sign = hmac_base64("SEC", b"1700000000123\nSEC");
    assert!(r.url.ends_with(&encode(&sign)));
    let f = object(&r.body);
    assert_eq!(keys(f), vec!["msgtype", "text", "at"]);
    match field(f, "at") {
        Some(Json::Object(at)) => {
            match field(at, "atMobiles") {
                Some(Json::Array(items)) => {
                    let v: Vec<String> = items
                        .iter()
                        .map(|i| match i {
                            Json::Str(s) => s.clone(),
                            other => panic!("{:?}", other),
                        })
                        .collect();
                    assert_eq!(v, vec!["138", "139", "140"]);
                }
                other => panic!("{:?}", other),
            }
            assert!(matches!(field(at, "isAtAll"), Some(Json::Bool(true))));
        }
        other => panic!("{:?}", other),
    }
}

#[test]
fn feishu_signs_its_payload() {
    let mut c = unset_feishu_robot();
    c.webhook_url = "https://feishu.test/hook".to_string();
    c.secret = "fs".to_string();
    let (r, _) = sent(start_delivery(ChannelConfig::FeishuRobot(c), msg("T", "B"), clock()));
    assert_eq!(r.url, "https://feishu.test/hook");
    let f = object(&r.body);
    assert_eq!(keys(f), vec!["msg_type", "content", "timestamp", "sign"]);
    assert_eq!(text_field(f, "timestamp").as_deref(), Some("1700000000"));
    assert_eq!(text_field(f, "sign").as_deref(), Some("KnO01LyLeUz2sHjT1ogyJOBrkgWI59ibq0SodIhTzOk="));
}

#[test]
fn feishu_custom_body_must_be_an_object() {
    let mut c = unset_feishu_robot();
    c.token = "tk".to_string();
    let e = invalid_text(start_delivery(ChannelConfig::FeishuRobot(c.clone()), custom("T", "B", "[1]"), clock()));
    assert_eq!(e, "Feishu custom body must be a JSON object");
    c.secret = "fs".to_string();
    let (r, _) = sent(start_delivery(ChannelConfig::FeishuRobot(c), custom("T", "B", "{\"msg_type\":\"post\"}"), clock()));
    assert_eq!(r.url, "https://open.feishu.cn/open-apis/bot/v2/hook/tk");
    let mut expected: serde_json::Map<String, serde_json::Value> =
        serde_json::from_str("{\"msg_type\":\"post\"}").unwrap();
    expected.insert("timestamp".into(), serde_json::Value::String("1700000000".into()));
    expected.insert(
        "sign".into(),
        serde_json::Value::String("KnO01LyLeUz2sHjT1ogyJOBrkgWI59ibq0SodIhTzOk=".into()),
    );
    match &r.body {
        RequestBody::JsonText(text) => {
            assert_eq!(
                text,
                "{\"msg_type\":\"post\",\"sign\":\"KnO01LyLeUz2sHjT1ogyJOBrkgWI59ibq0SodIhTzOk=\",\"timestamp\":\"1700000000\"}"
            );
            assert_eq!(text, &serde_json::to_string(&expected).unwrap());
        }
        other => panic!("{:?}", other),
    }
}

#[test]
fn feishu_custom_signature_replaces_members_and_keeps_key_order() {
    let mut c = unset_feishu_robot();
    c.token = "tk".to_string();
    c.secret = "fs".to_string();
    let body = "{\"zeta\": [1, 2], \"timestamp\": 5, \"a\\\"b\": {\"x\": null}, \"sign\": \"old\"}";
    let (r, _) = sent(start_delivery(ChannelConfig::FeishuRobot(c.clone()), custom("T", "B", body), clock()));
    let mut expected: serde_json::Map<String, serde_json::Value> = serde_json::from_str(body).unwrap();
    expected.insert("timestamp".into(), serde_json::Value::String("1700000000".into()));
    expected.insert(
        "sign".into(),
        serde_json::Value::String("KnO01LyLeUz2sHjT1ogyJOBrkgWI59ibq0SodIhTzOk=".into()),
    );
    match &r.body {
        RequestBody::JsonText(text) => assert_eq!(text, &serde_json::to_string(&expected).unwrap()),
        other => panic!("{:?}", other),
    }
    c.secret = String::new();
    let (r, _) = sent(start_delivery(ChannelConfig::FeishuRobot(c), custom("T", "B", "{\"b\": 1, \"a\": 2}"), clock()));
    assert!(matches!(&r.body, RequestBody::JsonText(t) if t == "{\"a\":2,\"b\":1}"));
}

#[test]
fn custom_body_must_be_json() {
    let mut c = unset_telegram();
    c.bot_token = "b".to_string();
    c.chat_id = "c".to_string();
    let e = invalid_text(start_delivery(ChannelConfig::Telegram(c), custom("T", "B", "{"), clock()));
    assert!(e.starts_with("custom body must be valid JSON: "), "{}", e);
    assert!(e.contains("line 1"), "{}", e);
}

#[test]
fn telegram_plain_and_custom() {
    let mut c = unset_telegram();
    c.bot_token = " 123:abc ".to_string();
    c.chat_id = " 42 ".to_string();
    c.parse_mode = "MarkdownV2".to_string();
    let (r, then) = sent(start_delivery(ChannelConfig::Telegram(c.clone()), msg("T", "B"), clock()));
    assert_eq!(r.url, "https://api.telegram.org/bot123:abc/sendMessage");
    let f = object(&r.body);
    assert_eq!(keys(f), vec!["chat_id", "text", "disable_web_page_preview", "parse_mode"]);
    assert_eq!(text_field(f, "chat_id").as_deref(), Some("42"));
    match failed(on_reply(then, HttpReply { status: 200, body: "{\"ok\":false}".into() })) {
        NotifyError::Provider(_) => {}
        other => panic!("{:?}", other),
    }
    let (r, _) = sent(start_delivery(ChannelConfig::Telegram(c), custom("T", "B", "{\"chat_id\":1}"), clock()));
    assert!(matches!(&r.body, RequestBody::JsonText(text) if text == "{\"chat_id\":1}"));
}

#[test]
fn bark_custom_body_goes_to_push() {
    let mut c = unset_bark();
    c.device_key = "k".to_string();
    let (r, _) = sent(start_delivery(ChannelConfig::Bark(c), custom("T", "B", "{\"body\":\"x\"}"), clock()));
    assert_eq!(r.url, "https://api.day.app/push");
}

#[test]
fn other_channels_send_a_custom_body_as_the_message() {
    let mut c = unset_pushplus();
    c.token = "tok".to_string();
    let (r, _) = sent(start_delivery(ChannelConfig::Pushplus(c), custom("T", "ignored", "{\"a\":1}"), clock()));
    let f = object(&r.body);
    assert_eq!(text_field(f, "content").as_deref(), Some("{\"a\":1}"));
    assert_eq!(text_field(f, "title").as_deref(), Some("T"));
}

#[test]
fn webhook_sends_the_custom_body_even_if_not_json() {
    let mut c = unset_webhook();
    c.url = "http://hook.test".to_string();
    let (r, _) = sent(start_delivery(ChannelConfig::Webhook(c), custom("T", "B", "raw text"), clock()));
    assert!(matches!(&r.body, RequestBody::Text(t) if t == "raw text"));
}

#[test]
fn serverchan_builds_its_url_from_the_key() {
    let mut c = unset_serverchan3();
    c.send_key = "SCTP12345T-token".to_string();
    let (r, _) = sent(start_delivery(ChannelConfig::Serverchan3(c.clone()), msg("T", "B"), clock()));
    assert_eq!(r.url, "https://12345.push.ft07.com/send/SCTP12345T-token.send");
    c.uid = " 99 ".to_string();
    let (r, _) = sent(start_delivery(ChannelConfig::Serverchan3(c.clone()), msg("T", "B"), clock()));
    assert_eq!(r.url, "https://99.push.ft07.com/send/SCTP12345T-token.send");
    c.uid = String::new();
    c.send_key = "SCT-old".to_string();
    assert_eq!(
        invalid_text(start_delivery(ChannelConfig::Serverchan3(c), msg("T", "B"), clock())),
        "ServerChan UID is required"
    );
}

#[test]
fn serverchan_uid_edge_cases() {
    assert_eq!(serverchan_uid("  SCTP7T  ").as_deref(), Some("7"));
    assert_eq!(serverchan_uid("sctpt-x"), None);
    assert_eq!(serverchan_uid("sctp123"), None);
    assert_eq!(serverchan_uid("sctp123x"), None);
    assert_eq!(serverchan_uid("xsctp1t"), None);
}

fn email_config() -> EmailConfig {
    let mut c = unset_email();
    c.smtp_host = " smtp.example.com ".to_string();
    c.sender_address = " sender@example.com ".to_string();
    c.sender_name = " Alerts ".to_string();
    c.receiver_addresses = "a@example.com; b@example.com,\r\n".to_string();
    c
}

#[test]
fn email_plan_carries_the_message() {
    let (plan, step) = {
        let p = plan_email(&email_config(), &msg("Subject", "Body")).unwrap();
        (p, start_delivery(ChannelConfig::Email(email_config()), msg("Subject", "Body"), clock()))
    };
    assert!(matches!(step, Step::Mail(_)));
    assert_eq!(plan.sender.email, "sender@example.com");
    assert_eq!(plan.sender.name.as_deref(), Some("Alerts"));
    let to: Vec<&str> = plan.receivers.iter().map(|m| m.email.as_str()).collect();
    assert_eq!(to, vec!["a@example.com", "b@example.com"]);
    assert_eq!(plan.subject, "Subject");
    assert_eq!(plan.body, "Body");
    assert!(!plan.html);
    assert_eq!(plan.host, "smtp.example.com");
    assert_eq!(plan.port, 465);
    assert_eq!(plan.security, SmtpSecurity::ImplicitTls);
    assert_eq!(plan.credentials, None);
}

#[test]
fn email_plan_options() {
    let mut c = email_config();
    c.message_format = " HTML ".to_string();
    c.smtp_security = "StartTLS".to_string();
    c.smtp_port = 0;
    c.username = " user ".to_string();
    c.password = " pw ".to_string();
    let p = plan_email(&c, &msg("S", "B")).unwrap();
    assert!(p.html);
    assert_eq!(p.security, SmtpSecurity::StartTls);
    assert_eq!(p.port, 1);
    assert_eq!(p.credentials, Some(("user".to_string(), " pw ".to_string())));
    c.smtp_security = "none".to_string();
    c.username = String::new();
    c.password = String::new();
    let p = plan_email(&c, &msg("S", "B")).unwrap();
    assert_eq!(p.security, SmtpSecurity::Plain);
    assert_eq!(p.credentials, None);
}

fn plan_error(c: &EmailConfig) -> String {
    match plan_email(c, &msg("S", "B")) {
        Err(NotifyError::InvalidConfig(m)) => m,
        other => panic!("{:?}", other),
    }
}

#[test]
fn email_plan_errors() {
    let mut c = email_config();
    c.message_format = " Markdown ".to_string();
    assert_eq!(plan_error(&c), "unsupported email format: markdown");
    let mut c = email_config();
    c.smtp_security = "SSL".to_string();
    assert_eq!(plan_error(&c), "unsupported SMTP security: ssl");
    let mut c = email_config();
    c.receiver_addresses = " ,;; ".to_string();
    assert_eq!(plan_error(&c), "at least one email receiver is required");
    let mut c = email_config();
    c.receiver_addresses = "ok@example.com, broken".to_string();
    assert!(plan_error(&c).starts_with("invalid receiver address: "));
    let mut c = email_config();
    c.sender_address = "no-at-sign".to_string();
    assert!(plan_error(&c).starts_with("invalid sender address: "));
}

#[test]
fn mailbox_reports_lettre_refusals() {
    let m = mailbox(" x@example.com ", "  ", "sender").unwrap();
    assert_eq!(m.email, "x@example.com");
    assert_eq!(m.name, None);
    match mailbox("broken", "", "receiver") {
        Err(NotifyError::InvalidConfig(text)) => {
            let expected = format!(
                "invalid receiver address: {}",
                "broken".parse::<lettre::Address>().unwrap_err()
            );
            assert_eq!(text, expected);
        }
        other => panic!("{:?}", other),
    }
}

#[test]
fn mail_outcomes() {
    let r = mail_result(Ok(())).unwrap();
    assert_eq!(r.provider, "email");
    assert_eq!(r.status_code, 250);
    assert_eq!(r.response_summary, "SMTP accepted message");
    match mail_result(Err("refused".into())) {
        Err(NotifyError::Email(m)) => assert_eq!(m, "refused"),
        other => panic!("{:?}", other),
    }
}

#[test]
fn raw_json_channels_send_a_custom_body_as_parsed() {
    let text = "{\"msgtype\":\"markdown\",  \"markdown\":{\"text\":\"# hi\"}}";
    let written =
        serde_json::to_string(&serde_json::from_str::<serde_json::Value>(text).unwrap()).unwrap();
    assert_eq!(written, "{\"markdown\":{\"text\":\"# hi\"},\"msgtype\":\"markdown\"}");
    let mut d = unset_dingtalk_robot();
    d.access_token = "tok".to_string();
    d.secret = "SEC".to_string();
    let mut t = unset_telegram();
    t.bot_token = "b".to_string();
    t.chat_id = "c".to_string();
    let mut b = unset_bark();
    b.device_key = "k".to_string();
    let mut w = unset_wecom_robot();
    w.key = "k".to_string();
    let configs = vec![
        ChannelConfig::DingtalkRobot(d),
        ChannelConfig::Telegram(t),
        ChannelConfig::Bark(b),
        ChannelConfig::WecomRobot(w),
    ];
    for config in configs {
        let channel = config.channel_type();
        let (r, then) = sent(start_delivery(config, custom("T", "B", text), clock()));
        match &r.body {
            RequestBody::JsonText(sent_text) => assert_eq!(sent_text, &written),
            other => panic!("{:?}: {:?}", channel, other),
        }
        assert!(matches!(then, Pending::Answer { channel: c, inspect: true } if c == channel));
    }
}

#[test]
fn a_receipt_names_the_configured_channel_and_the_last_reply() {
    let mut c = unset_wecom_app();
    c.corp_id = "corp".to_string();
    c.agent_id = "7".to_string();
    c.secret = "sec".to_string();
    let replies = vec![
        HttpReply { status: 200, body: "{\"access_token\":\"T\"}".into() },
        HttpReply { status: 201, body: "{\"errcode\": 0,\n \"errmsg\": \"ok\"}".into() },
    ];
    let mut step = start_delivery(ChannelConfig::WecomApp(c), msg("T", "B"), clock());
    for reply in replies {
        step = match step {
            Step::Send { then, .. } => on_reply(then, reply),
            other => panic!("{:?}", other),
        };
    }
    let r = receipt(step);
    assert_eq!(r.provider, "wecom_app");
    assert_eq!(r.status_code, 201);
    assert_eq!(r.response_summary, "{\"errcode\": 0, \"errmsg\": \"ok\"}");
}
