use simadmin::json::Json;
use simadmin::protocol::{
    default_sms_transport, AgentType, BindingPolicyPayload, CommandResultStatus,
    ConfigApplyStatus, ConnectionScope, DeviceAction, DeviceFeatureSnapshot, DeviceStatus,
    DiagnosticLevel, Envelope, EnvelopeError, EventType, HardwareFingerprintPayload, LayerStatus, SmsDirection,
    SmsStatus, Timestamp, PROTOCOL_VERSION,
};

fn is_uuid_v4(s: &str) -> bool {
    let b: Vec<char> = s.chars().collect();
    b.len() == 36
        && b.iter().enumerate().all(|(i, c)| {
            if [8, 13, 18, 23].contains(&i) {
                *c == '-'
            } else {
                c.is_ascii_digit() || ('a'..='f').contains(c)
            }
        })
        && b[14] == '4'
        && "89ab".contains(b[19])
}

#[test]
fn new_envelope_is_stamped_and_identified() {
    let envelope = Envelope::new(
        "heartbeat".to_string(),
        "agent-1".to_string(),
        None,
        Some("corr".to_string()),
        Json::Object(vec![("session_generation".to_string(), Json::Int(4))]),
    )
    .expect("random bytes and a readable clock");
    assert_eq!(envelope.protocol_version, PROTOCOL_VERSION);
    assert_eq!(envelope.protocol_version, 1);
    assert_eq!(envelope.message_type, "heartbeat");
    assert_eq!(envelope.agent_id, "agent-1");
    assert_eq!(envelope.device_id, None);
    assert_eq!(envelope.correlation_id.as_deref(), Some("corr"));
    assert!(envelope.message_id.starts_with("msg-"));
    assert!(is_uuid_v4(&envelope.message_id[4..]), "{}", envelope.message_id);
    assert!(envelope.sent_at.nanos < 1_000_000_000);
    assert!(envelope.sent_at.seconds > 1_600_000_000);
    match envelope.payload {
        Json::Object(fields) => assert!(matches!(fields[0].1, Json::Int(4))),
        other => panic!("{:?}", other),
    }
}

#[test]
fn message_ids_differ() {
    let a = Envelope::new("x".into(), "a".into(), None, None, Json::Null).unwrap();
    let b = Envelope::new("x".into(), "a".into(), None, None, Json::Null).unwrap();
    assert_ne!(a.message_id, b.message_id);
}

#[test]
fn assemble_uses_the_given_id_and_time() {
    let at = Timestamp { seconds: 10, nanos: 5 };
    let e = Envelope::assemble("abc", at, "t".into(), "a".into(), Some("d".into()), None, Json::Bool(true));
    assert_eq!(e.message_id, "msg-abc");
    assert_eq!(e.sent_at, at);
    assert_eq!(e.device_id.as_deref(), Some("d"));
}

#[test]
fn timestamp_now_is_recent() {
    let t = Timestamp::now().unwrap();
    assert!(t.seconds > 1_600_000_000);
    assert!(t.nanos < 1_000_000_000);
}

#[test]
fn wire_names_of_enums() {
    assert_eq!(AgentType::Simadmin.as_str(), "simadmin");
    assert_eq!(AgentType::Host.as_str(), "host");
    assert_eq!(ConnectionScope::Local.as_str(), "local");
    assert_eq!(ConnectionScope::Remote.as_str(), "remote");
    assert_eq!(DiagnosticLevel::Warning.as_str(), "warning");
    assert_eq!(EventType::VersionUpdate.as_str(), "version_update");
    assert_eq!(EventType::SystemEvent.as_str(), "system_event");
    assert_eq!(SmsDirection::Incoming.as_str(), "incoming");
    assert_eq!(SmsStatus::Received.as_str(), "received");
    assert_eq!(DeviceAction::RestartBaseband.as_str(), "restart_baseband");
    assert_eq!(DeviceAction::CallHangupAll.as_str(), "call_hangup_all");
    assert_eq!(DeviceStatus::IdentityConflict.as_str(), "identity_conflict");
    assert_eq!(LayerStatus::Healthy.as_str(), "ok");
    assert_eq!(LayerStatus::Unavailable.as_str(), "unavailable");
    assert_eq!(ConfigApplyStatus::Applied.as_str(), "applied");
    assert_eq!(CommandResultStatus::Succeeded.as_str(), "succeeded");
    assert_eq!(CommandResultStatus::Unknown.as_str(), "unknown");
}

#[test]
fn protocol_defaults() {
    assert_eq!(default_sms_transport(), "modem");
    assert_eq!(BindingPolicyPayload::default(), BindingPolicyPayload::HardwareBound);
    let f = HardwareFingerprintPayload::default();
    assert!(f.imei.is_none() && f.usb_serial.is_none() && f.vendor_id.is_none() && f.product_id.is_none());
    let s = DeviceFeatureSnapshot::default();
    assert!(matches!(s.sim, Json::Null));
    assert!(matches!(s.policy_status, Json::Null));
}

#[test]
fn from_parts_sets_version_and_variant_bits() {
    let bytes: Vec<u8> = (0u8..16).map(|i| i * 17).collect();
    let e = Envelope::from_parts(
        Some(bytes),
        Some((1_700_000_000, 5)),
        "t".into(),
        "a".into(),
        None,
        None,
        Json::Null,
    )
    .unwrap();
    assert_eq!(e.message_id, "msg-00112233-4455-4677-8899-aabbccddeeff");
    assert_eq!(e.sent_at, Timestamp { seconds: 1_700_000_000, nanos: 5 });
    let all_ff = vec![0xffu8; 16];
    let e = Envelope::from_parts(Some(all_ff), Some((0, 0)), "t".into(), "a".into(), None, None, Json::Null).unwrap();
    assert_eq!(e.message_id, "msg-ffffffff-ffff-4fff-bfff-ffffffffffff");
}

#[test]
fn from_parts_failures() {
    let short = Envelope::from_parts(Some(vec![1, 2, 3]), Some((1, 0)), "t".into(), "a".into(), None, None, Json::Null);
    assert!(matches!(short, Err(EnvelopeError::NoRandomness)));
    let none = Envelope::from_parts(None, Some((1, 0)), "t".into(), "a".into(), None, None, Json::Null);
    assert!(matches!(none, Err(EnvelopeError::NoRandomness)));
    let before = Envelope::from_parts(Some(vec![0; 16]), None, "t".into(), "a".into(), None, None, Json::Null);
    assert!(matches!(before, Err(EnvelopeError::ClockOutOfRange)));
    let far = Envelope::from_parts(Some(vec![0; 16]), Some((u64::MAX, 0)), "t".into(), "a".into(), None, None, Json::Null);
    assert!(matches!(far, Err(EnvelopeError::ClockOutOfRange)));
}

#[test]
fn timestamp_from_unix_reading() {
    assert_eq!(Timestamp::from_unix((42, 7)), Some(Timestamp { seconds: 42, nanos: 7 }));
    assert_eq!(Timestamp::from_unix((i64::MAX as u64, 0)).map(|t| t.seconds), Some(i64::MAX));
    assert_eq!(Timestamp::from_unix((i64::MAX as u64 + 1, 0)), None);
}
