use simadmin::codec::{encode, hmac_hex};
use simadmin::notify::channel::ChannelType;
use simadmin::notify::config::{validate_config, ChannelConfig, EmailConfig, WebhookConfig};
use simadmin::notify::delivery::{on_reply, start_delivery, Clock, HttpReply, Pending, Step};
use simadmin::notify::error::NotificationMessage;
use simadmin::notify::request::{serverchan_uid, HttpMethod, RequestBody};

fn clock() -> Clock {
    Clock { seconds: 1_700_000_000, millis: 1_700_000_000_123 }
}

fn message(title: &str, body: &str, custom: Option<&str>) -> NotificationMessage {
    NotificationMessage {
        title: title.to_string(),
        body: body.to_string(),
        custom_body: custom.map(|s| s.to_string()),
    }
}

fn header<'a>(headers: &'a [(String, String)], name: &str) -> Option<&'a str> {
    headers
        .iter()
        .find(|(n, _)| n.eq_ignore_ascii_case(name))
        .map(|(_, v)| v.as_str())
}

fn expect_send(step: Step) -> (simadmin::notify::request::HttpRequest, Pending) {
    match step {
        Step::Send { request, then } => (request, then),
        other => panic!("expected a request, got {:?}", other),
    }
}

#[test]
fn every_channel_is_supported_and_validated() {
    assert!(ChannelType::ALL.iter().all(|channel| channel.supported()));
    for channel in ChannelType::ALL {
        assert!(
            validate_config(&ChannelConfig::unset(channel)).is_err(),
            "{} accepted empty config",
            channel.as_str()
        );
    }
}

#[test]
fn webhook_sends_body_headers_and_signature() {
    let mut config = match ChannelConfig::unset(ChannelType::Webhook) {
        ChannelConfig::Webhook(c) => c,
        _ => unreachable!(),
    };
    config.url = "http://127.0.0.1:8080/notify".to_string();
    config.headers = vec![("X-Test".to_string(), "yes".to_string())];
    config.secret = "secret".to_string();
    let step = start_delivery(
        ChannelConfig::Webhook(config),
        message("title", "body", Some("{\"ok\":true}")),
        clock(),
    );
    let (request, then) = expect_send(step);
    assert_eq!(request.url, "http://127.0.0.1:8080/notify");
    assert_eq!(header(&request.headers, "x-test"), Some("yes"));
    match &request.body {
        RequestBody::Text(t) => assert_eq!(t, "{\"ok\":true}"),
        other => panic!("unexpected body {:?}", other),
    }
    assert_eq!(
        header(&request.headers, "x-webhook-signature"),
        Some(hmac_hex("secret", b"{\"ok\":true}").as_str())
    );
    let receipt = match on_reply(then, HttpReply { status: 200, body: "accepted".to_string() }) {
        Step::Done(Ok(r)) => r,
        other => panic!("unexpected step {:?}", other),
    };
    assert_eq!(receipt.status_code, 200);
}

#[test]
fn bark_uses_shared_sender_contract() {
    let mut config = match ChannelConfig::unset(ChannelType::Bark) {
        ChannelConfig::Bark(c) => c,
        _ => unreachable!(),
    };
    config.server_url = "http://127.0.0.1:8080".to_string();
    config.device_key = "device-key".to_string();
    let (request, then) = expect_send(start_delivery(
        ChannelConfig::Bark(config),
        message("title", "body", None),
        clock(),
    ));
    assert_eq!(request.url, "http://127.0.0.1:8080/device-key");
    let body = match &request.body {
        RequestBody::Json(simadmin::json::Json::Object(fields)) => fields,
        other => panic!("unexpected body {:?}", other),
    };
    let value = body.iter().find(|(k, _)| k == "body").map(|(_, v)| v);
    match value {
        Some(simadmin::json::Json::Str(s)) => assert_eq!(s, "body"),
        other => panic!("unexpected body member {:?}", other),
    }
    match on_reply(then, HttpReply { status: 200, body: "{\"code\":200}".to_string() }) {
        Step::Done(Ok(r)) => assert_eq!(r.provider, "bark"),
        other => panic!("unexpected step {:?}", other),
    }
}

#[test]
fn robot_channel_forwards_custom_json_body() {
    let mut config = match ChannelConfig::unset(ChannelType::WecomRobot) {
        ChannelConfig::WecomRobot(c) => c,
        _ => unreachable!(),
    };
    config.webhook_url = "http://127.0.0.1:8080/robot".to_string();
    let (request, then) = expect_send(start_delivery(
        ChannelConfig::WecomRobot(config),
        message(
            "ignored title",
            "ignored body",
            Some(r#"{"msgtype":"text","text":{"content":"custom"}}"#),
        ),
        clock(),
    ));
    assert_eq!(request.url, "http://127.0.0.1:8080/robot");
    let text = match &request.body {
        RequestBody::JsonText(text) => text.clone(),
        other => panic!("unexpected body {:?}", other),
    };
    let value: serde_json::Value = serde_json::from_str(&text).unwrap();
    assert_eq!(value["msgtype"], "text");
    assert_eq!(value["text"]["content"], "custom");
    match on_reply(then, HttpReply { status: 200, body: "{\"errcode\": 0}".to_string() }) {
        Step::Done(Ok(r)) => assert_eq!(r.provider, "wecom_robot"),
        other => panic!("unexpected step {:?}", other),
    }
}

#[test]
fn serverchan3_maps_message_and_routing_fields_to_form() {
    let mut config = match ChannelConfig::unset(ChannelType::Serverchan3) {
        ChannelConfig::Serverchan3(c) => c,
        _ => unreachable!(),
    };
    config.send_key = "sctp123t-test".to_string();
    config.channel = "9".to_string();
    config.openid = "group-a".to_string();
    config.api_url = "http://127.0.0.1:8080/send".to_string();
    let (request, then) = expect_send(start_delivery(
        ChannelConfig::Serverchan3(config),
        message("设备告警", "信号过低", None),
        clock(),
    ));
    assert_eq!(request.method, HttpMethod::Post);
    assert_eq!(request.url, "http://127.0.0.1:8080/send");
    let form = match &request.body {
        RequestBody::Form(f) => f
            .iter()
            .map(|(k, v)| format!("{}={}", encode(k), encode(v)))
            .collect::<Vec<_>>()
            .join("&"),
        other => panic!("unexpected body {:?}", other),
    };
    assert!(form.contains("title=%E8%AE%BE%E5%A4%87%E5%91%8A%E8%AD%A6"));
    assert!(form.contains("desp=%E4%BF%A1%E5%8F%B7%E8%BF%87%E4%BD%8E"));
    assert!(form.contains("channel=9"));
    assert!(form.contains("group=group-a"));
    match on_reply(then, HttpReply { status: 200, body: "{\"code\": 0}".to_string() }) {
        Step::Done(Ok(r)) => assert_eq!(r.provider, "serverchan3"),
        other => panic!("unexpected step {:?}", other),
    }
}

#[test]
fn email_config_supports_legacy_receiver_alias_and_secure_defaults() {
    let mut config = match ChannelConfig::unset(ChannelType::Email) {
        ChannelConfig::Email(c) => c,
        _ => unreachable!(),
    };
    config.smtp_host = "smtp.example.com".to_string();
    config.sender_address = "sender@example.com".to_string();
    config.receiver_addresses = "receiver@example.com".to_string();
    let without_receiver = EmailConfig { receiver_addresses: String::new(), ..config.clone() };

    validate_config(&ChannelConfig::Email(config.clone())).unwrap();
    assert_eq!(config.smtp_port, 465);
    assert_eq!(config.smtp_security, "implicit_tls");
    assert_eq!(config.receiver_addresses, "receiver@example.com");
    assert!(validate_config(&ChannelConfig::Email(without_receiver)).is_err());
}

#[test]
fn serverchan3_extracts_uid_from_send_key() {
    assert_eq!(serverchan_uid("sctp12345t-token").as_deref(), Some("12345"));
    assert_eq!(serverchan_uid("invalid"), None);
}

#[test]
fn webhook_default_config_has_no_method() {
    let config = WebhookConfig::default();
    assert_eq!(config.http_method, "");
    assert!(validate_config(&ChannelConfig::Webhook(config)).is_err());
}
