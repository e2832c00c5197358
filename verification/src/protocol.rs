//! The messages exchanged between agents and the hub.
use vstd::prelude::*;
use vstd::string::*;
use crate::json::Json;
use crate::text::concat_str;
use crate::clock::unix_time;
use crate::codec::hex_lower;

verus! {

/// The protocol version every envelope carries.
pub const PROTOCOL_VERSION: u16 = 1;

/// A point in time: whole seconds since the Unix epoch and the nanoseconds
/// past them (up to 1_999_999_999 during a leap second).
#[derive(Clone, Copy, Debug, PartialEq, Eq)]
pub struct Timestamp {
    pub seconds: i64,
    pub nanos: u32,
}

impl Timestamp {
    /// The timestamp of a clock reading, given as whole seconds since the
    /// Unix epoch and the nanoseconds past them; `None` when the seconds do
    /// not fit in an `i64`.
    pub fn from_unix(reading: (u64, u32)) -> (r: Option<Timestamp>)
        ensures
            r == timestamp_of(reading),
    {
        if reading.0 <= 9_223_372_036_854_775_807u64 {
            Some(Timestamp { seconds: reading.0 as i64, nanos: reading.1 })
        } else {
            None
        }
    }

    /// The current time; `None` when the system clock reads earlier than the
    /// Unix epoch or later than an `i64` of seconds reaches.
    pub fn now() -> (r: Option<Timestamp>)
        ensures
            r matches Some(t) ==> t.seconds >= 0 && t.nanos < 1_000_000_000,
    {
        match unix_time() {
            Some(reading) => Timestamp::from_unix(reading),
            None => None,
        }
    }
}

/// A clock reading as a timestamp, when its seconds fit in an `i64`.
pub open spec fn timestamp_of(reading: (u64, u32)) -> Option<Timestamp> {
    if reading.0 <= i64::MAX {
        Some(Timestamp { seconds: reading.0 as i64, nanos: reading.1 })
    } else {
        None
    }
}

/// Sixteen random bytes with the version (4) and variant (RFC 4122) bits
/// set, as `uuid::Builder::from_random_bytes` sets them.
pub open spec fn v4_bytes(b: Seq<u8>) -> Seq<u8> {
    b.update(6, (b[6] & 0x0fu8) | 0x40u8).update(8, (b[8] & 0x3fu8) | 0x80u8)
}

/// The hyphenated lower-case text of a UUID's sixteen bytes: 8, 4, 4, 4 and
/// 12 hexadecimal digits.
pub open spec fn uuid_text(v: Seq<u8>) -> Seq<char> {
    hex_lower(v.subrange(0, 4)) + seq!['-'] + hex_lower(v.subrange(4, 6)) + seq!['-']
        + hex_lower(v.subrange(6, 8)) + seq!['-'] + hex_lower(v.subrange(8, 10)) + seq!['-']
        + hex_lower(v.subrange(10, 16))
}

proof fn lemma_hex_lower_digits(bs: Seq<u8>)
    ensures
        hex_lower(bs).len() == 2 * bs.len(),
        forall|i: int|
            0 <= i < bs.len() ==> hex_lower(bs)[2 * i] == crate::codec::hex_lower_char(
                (#[trigger] bs[i] / 16) as nat,
            ),
    decreases bs.len(),
{
    if bs.len() > 0 {
        lemma_hex_lower_digits(bs.drop_last());
        assert forall|i: int| 0 <= i < bs.len() implies hex_lower(bs)[2 * i]
            == crate::codec::hex_lower_char((#[trigger] bs[i] / 16) as nat) by {
            if i < bs.len() - 1 {
                assert(bs.drop_last()[i] == bs[i]);
            }
        }
    }
}

/// The text of a version 4 UUID is 36 characters long, with hyphens after
/// the 8th, 12th, 16th and 20th digit, the version digit `4` and a variant
/// digit among `8`, `9`, `a`, `b`.
pub proof fn lemma_uuid_v4_form(b: Seq<u8>)
    requires
        b.len() == 16,
    ensures
        uuid_text(v4_bytes(b)).len() == 36,
        uuid_text(v4_bytes(b))[8] == '-',
        uuid_text(v4_bytes(b))[13] == '-',
        uuid_text(v4_bytes(b))[18] == '-',
        uuid_text(v4_bytes(b))[23] == '-',
        uuid_text(v4_bytes(b))[14] == '4',
        uuid_text(v4_bytes(b))[19] == '8' || uuid_text(v4_bytes(b))[19] == '9'
            || uuid_text(v4_bytes(b))[19] == 'a' || uuid_text(v4_bytes(b))[19] == 'b',
{
    let v = v4_bytes(b);
    let b6 = b[6];
    let b8 = b[8];
    assert(((b6 & 0x0fu8) | 0x40u8) / 16 == 4) by (bit_vector);
    assert(8 <= ((b8 & 0x3fu8) | 0x80u8) / 16 <= 11) by (bit_vector);
    let s0 = v.subrange(0, 4);
    let s1 = v.subrange(4, 6);
    let s2 = v.subrange(6, 8);
    let s3 = v.subrange(8, 10);
    let s4 = v.subrange(10, 16);
    lemma_hex_lower_digits(s0);
    lemma_hex_lower_digits(s1);
    lemma_hex_lower_digits(s2);
    lemma_hex_lower_digits(s3);
    lemma_hex_lower_digits(s4);
    assert(s2[0] == v[6]);
    assert(s3[0] == v[8]);
    let t = uuid_text(v);
    assert(t[14] == hex_lower(s2)[0]);
    assert(t[19] == hex_lower(s3)[0]);
}

/// `getrandom::fill` on sixteen bytes: the bytes, or `None` when the
/// operating system's random source fails. The bytes are random: only
/// their number is stated.
#[verifier::external_body]
fn random_16() -> (r: Option<Vec<u8>>)
    ensures
        r matches Some(b) ==> b@.len() == 16,
{
    let mut b = [0u8; 16];
    getrandom::fill(&mut b).ok().map(|_| b.to_vec())
}

/// `uuid::Builder::from_random_bytes(..).into_uuid().to_string()`: the
/// version and variant bits set in the bytes, written hyphenated in
/// lower-case hexadecimal.
#[verifier::external_body]
fn uuid_v4_text(random: &[u8]) -> (r: String)
    requires
        random@.len() == 16,
    ensures
        r@ == uuid_text(v4_bytes(random@)),
{
    let mut b = [0u8; 16];
    b.copy_from_slice(random);
    uuid::Builder::from_random_bytes(b).into_uuid().to_string()
}

/// Why an envelope could not be made.
#[derive(Clone, Copy, Debug, PartialEq, Eq, Structural)]
pub enum EnvelopeError {
    /// The operating system's random source gave no bytes for the message id.
    NoRandomness,
    /// The clock reads earlier than the Unix epoch, or later than an `i64`
    /// of seconds reaches.
    ClockOutOfRange,
}

pub open spec fn opt_bytes(random: Option<Vec<u8>>) -> Option<Seq<u8>> {
    match random {
        Some(b) => Some(b@),
        None => None,
    }
}

/// What stops an envelope from being made of these random bytes and this
/// clock reading, if anything.
pub open spec fn envelope_failure(random: Option<Seq<u8>>, clock: Option<(u64, u32)>) -> Option<EnvelopeError> {
    if !(random matches Some(b) && b.len() == 16) {
        Some(EnvelopeError::NoRandomness)
    } else if !(clock matches Some(t) && timestamp_of(t) is Some) {
        Some(EnvelopeError::ClockOutOfRange)
    } else {
        None
    }
}

/// A protocol message: who sends it, what type it is, and its payload.
#[derive(Debug)]
pub struct Envelope {
    pub protocol_version: u16,
    pub message_id: String,
    pub message_type: String,
    pub sent_at: Timestamp,
    pub agent_id: String,
    pub device_id: Option<String>,
    pub correlation_id: Option<String>,
    pub payload: Json,
}

impl Envelope {
    /// A new envelope sent now, with a fresh message id `msg-<uuid>` made of
    /// random bytes; it fails when there are no random bytes or the clock
    /// cannot be read as a timestamp.
    pub fn new(
        message_type: String,
        agent_id: String,
        device_id: Option<String>,
        correlation_id: Option<String>,
        payload: Json,
    ) -> (r: Result<Envelope, EnvelopeError>)
        ensures
            r matches Ok(e) ==> {
                &&& e.protocol_version == PROTOCOL_VERSION
                &&& exists|b: Seq<u8>| b.len() == 16 && e.message_id@ == "msg-"@ + #[trigger] uuid_text(v4_bytes(b))
                &&& e.sent_at.seconds >= 0
                &&& e.sent_at.nanos < 1_000_000_000
                &&& e.message_type == message_type
                &&& e.agent_id == agent_id
                &&& e.device_id == device_id
                &&& e.correlation_id == correlation_id
                &&& e.payload == payload
            },
    {
        let random = random_16();
        let clock = unix_time();
        Envelope::from_parts(random, clock, message_type, agent_id, device_id, correlation_id, payload)
    }

    /// The envelope made of these random bytes and this clock reading:
    /// message id `msg-<uuid>`, sent at the reading.
    pub fn from_parts(
        random: Option<Vec<u8>>,
        clock: Option<(u64, u32)>,
        message_type: String,
        agent_id: String,
        device_id: Option<String>,
        correlation_id: Option<String>,
        payload: Json,
    ) -> (r: Result<Envelope, EnvelopeError>)
        ensures
            match r {
                Ok(e) => {
                    &&& envelope_failure(opt_bytes(random), clock) is None
                    &&& e.protocol_version == PROTOCOL_VERSION
                    &&& e.message_id@ == "msg-"@ + uuid_text(v4_bytes(random->0@))
                    &&& timestamp_of(clock->0) == Some(e.sent_at)
                    &&& e.message_type == message_type
                    &&& e.agent_id == agent_id
                    &&& e.device_id == device_id
                    &&& e.correlation_id == correlation_id
                    &&& e.payload == payload
                },
                Err(err) => envelope_failure(opt_bytes(random), clock) == Some(err),
            },
    {
        let bytes = match random {
            Some(b) => {
                if b.len() != 16 {
                    return Err(EnvelopeError::NoRandomness);
                }
                b
            },
            None => {
                return Err(EnvelopeError::NoRandomness);
            },
        };
        let sent_at = match clock {
            Some(reading) => match Timestamp::from_unix(reading) {
                Some(t) => t,
                None => {
                    return Err(EnvelopeError::ClockOutOfRange);
                },
            },
            None => {
                return Err(EnvelopeError::ClockOutOfRange);
            },
        };
        let uuid = uuid_v4_text(bytes.as_slice());
        Ok(Envelope::assemble(uuid.as_str(), sent_at, message_type, agent_id, device_id, correlation_id, payload))
    }

    /// The envelope with message id `msg-<uuid>` sent at `sent_at`.
    pub fn assemble(
        uuid: &str,
        sent_at: Timestamp,
        message_type: String,
        agent_id: String,
        device_id: Option<String>,
        correlation_id: Option<String>,
        payload: Json,
    ) -> (r: Envelope)
        ensures
            r.protocol_version == PROTOCOL_VERSION,
            r.message_id@ == "msg-"@ + uuid@,
            r.sent_at == sent_at,
            r.message_type == message_type,
            r.agent_id == agent_id,
            r.device_id == device_id,
            r.correlation_id == correlation_id,
            r.payload == payload,
    {
        Envelope {
            protocol_version: PROTOCOL_VERSION,
            message_id: concat_str("msg-", uuid),
            message_type,
            sent_at,
            agent_id,
            device_id,
            correlation_id,
            payload,
        }
    }
}

/// Which agent is speaking.
#[derive(Clone, Copy, Debug, PartialEq, Eq, Structural)]
pub enum AgentType {
    Simadmin,
    Host,
}

/// The wire name of a [`AgentType`].
pub open spec fn agent_type_name(v: AgentType) -> Seq<char> {
    match v {
        AgentType::Simadmin => "simadmin"@,
        AgentType::Host => "host"@,
    }
}

impl AgentType {
    pub fn as_str(self) -> (r: &'static str)
        ensures
            r@ == agent_type_name(self),
    {
        match self {
            AgentType::Simadmin => "simadmin",
            AgentType::Host => "host",
        }
    }
}

/// How the agent reaches the hub.
#[derive(Clone, Copy, Debug, PartialEq, Eq, Structural)]
pub enum ConnectionScope {
    Local,
    Remote,
}

/// The wire name of a [`ConnectionScope`].
pub open spec fn connection_scope_name(v: ConnectionScope) -> Seq<char> {
    match v {
        ConnectionScope::Local => "local"@,
        ConnectionScope::Remote => "remote"@,
    }
}

impl ConnectionScope {
    pub fn as_str(self) -> (r: &'static str)
        ensures
            r@ == connection_scope_name(self),
    {
        match self {
            ConnectionScope::Local => "local",
            ConnectionScope::Remote => "remote",
        }
    }
}

/// The severity of a diagnostic.
#[derive(Clone, Copy, Debug, PartialEq, Eq, Structural)]
pub enum DiagnosticLevel {
    Debug,
    Info,
    Warning,
    Error,
}

/// The wire name of a [`DiagnosticLevel`].
pub open spec fn diagnostic_level_name(v: DiagnosticLevel) -> Seq<char> {
    match v {
        DiagnosticLevel::Debug => "debug"@,
        DiagnosticLevel::Info => "info"@,
        DiagnosticLevel::Warning => "warning"@,
        DiagnosticLevel::Error => "error"@,
    }
}

impl DiagnosticLevel {
    pub fn as_str(self) -> (r: &'static str)
        ensures
            r@ == diagnostic_level_name(self),
    {
        match self {
            DiagnosticLevel::Debug => "debug",
            DiagnosticLevel::Info => "info",
            DiagnosticLevel::Warning => "warning",
            DiagnosticLevel::Error => "error",
        }
    }
}

/// The kind of an event.
#[derive(Clone, Copy, Debug, PartialEq, Eq, Structural)]
pub enum EventType {
    Sms,
    Ddns,
    VersionUpdate,
    SystemEvent,
    DeviceStatus,
    Automation,
}

/// The wire name of a [`EventType`].
pub open spec fn event_type_name(v: EventType) -> Seq<char> {
    match v {
        EventType::Sms => "sms"@,
        EventType::Ddns => "ddns"@,
        EventType::VersionUpdate => "version_update"@,
        EventType::SystemEvent => "system_event"@,
        EventType::DeviceStatus => "device_status"@,
        EventType::Automation => "automation"@,
    }
}

impl EventType {
    pub fn as_str(self) -> (r: &'static str)
        ensures
            r@ == event_type_name(self),
    {
        match self {
            EventType::Sms => "sms",
            EventType::Ddns => "ddns",
            EventType::VersionUpdate => "version_update",
            EventType::SystemEvent => "system_event",
            EventType::DeviceStatus => "device_status",
            EventType::Automation => "automation",
        }
    }
}

/// Whether a message came in or went out.
#[derive(Clone, Copy, Debug, PartialEq, Eq, Structural)]
pub enum SmsDirection {
    Incoming,
    Outgoing,
}

/// The wire name of a [`SmsDirection`].
pub open spec fn sms_direction_name(v: SmsDirection) -> Seq<char> {
    match v {
        SmsDirection::Incoming => "incoming"@,
        SmsDirection::Outgoing => "outgoing"@,
    }
}

impl SmsDirection {
    pub fn as_str(self) -> (r: &'static str)
        ensures
            r@ == sms_direction_name(self),
    {
        match self {
            SmsDirection::Incoming => "incoming",
            SmsDirection::Outgoing => "outgoing",
        }
    }
}

/// Where a text message stands.
#[derive(Clone, Copy, Debug, PartialEq, Eq, Structural)]
pub enum SmsStatus {
    Pending,
    Sent,
    Failed,
    Received,
    Unknown,
}

/// The wire name of a [`SmsStatus`].
pub open spec fn sms_status_name(v: SmsStatus) -> Seq<char> {
    match v {
        SmsStatus::Pending => "pending"@,
        SmsStatus::Sent => "sent"@,
        SmsStatus::Failed => "failed"@,
        SmsStatus::Received => "received"@,
        SmsStatus::Unknown => "unknown"@,
    }
}

impl SmsStatus {
    pub fn as_str(self) -> (r: &'static str)
        ensures
            r@ == sms_status_name(self),
    {
        match self {
            SmsStatus::Pending => "pending",
            SmsStatus::Sent => "sent",
            SmsStatus::Failed => "failed",
            SmsStatus::Received => "received",
            SmsStatus::Unknown => "unknown",
        }
    }
}

/// An action the hub asks a device to take.
#[derive(Clone, Copy, Debug, PartialEq, Eq, Structural)]
pub enum DeviceAction {
    RestartBaseband,
    RebootDevice,
    SetDataEnabled,
    SetRoamingEnabled,
    SetAirplaneMode,
    SetRadioMode,
    SetApn,
    EsimEnableProfile,
    EsimDisableProfile,
    EsimDeleteProfile,
    CallDial,
    CallHangupAll,
}

/// The wire name of a [`DeviceAction`].
pub open spec fn device_action_name(v: DeviceAction) -> Seq<char> {
    match v {
        DeviceAction::RestartBaseband => "restart_baseband"@,
        DeviceAction::RebootDevice => "reboot_device"@,
        DeviceAction::SetDataEnabled => "set_data_enabled"@,
        DeviceAction::SetRoamingEnabled => "set_roaming_enabled"@,
        DeviceAction::SetAirplaneMode => "set_airplane_mode"@,
        DeviceAction::SetRadioMode => "set_radio_mode"@,
        DeviceAction::SetApn => "set_apn"@,
        DeviceAction::EsimEnableProfile => "esim_enable_profile"@,
        DeviceAction::EsimDisableProfile => "esim_disable_profile"@,
        DeviceAction::EsimDeleteProfile => "esim_delete_profile"@,
        DeviceAction::CallDial => "call_dial"@,
        DeviceAction::CallHangupAll => "call_hangup_all"@,
    }
}

impl DeviceAction {
    pub fn as_str(self) -> (r: &'static str)
        ensures
            r@ == device_action_name(self),
    {
        match self {
            DeviceAction::RestartBaseband => "restart_baseband",
            DeviceAction::RebootDevice => "reboot_device",
            DeviceAction::SetDataEnabled => "set_data_enabled",
            DeviceAction::SetRoamingEnabled => "set_roaming_enabled",
            DeviceAction::SetAirplaneMode => "set_airplane_mode",
            DeviceAction::SetRadioMode => "set_radio_mode",
            DeviceAction::SetApn => "set_apn",
            DeviceAction::EsimEnableProfile => "esim_enable_profile",
            DeviceAction::EsimDisableProfile => "esim_disable_profile",
            DeviceAction::EsimDeleteProfile => "esim_delete_profile",
            DeviceAction::CallDial => "call_dial",
            DeviceAction::CallHangupAll => "call_hangup_all",
        }
    }
}

/// The state of a device.
#[derive(Clone, Copy, Debug, PartialEq, Eq, Structural)]
pub enum DeviceStatus {
    Online,
    Offline,
    /// Kept for older agents; the hub treats it as online and reads the layer statuses.
    Degraded,
    IdentityConflict,
    Disabled,
}

/// The wire name of a [`DeviceStatus`].
pub open spec fn device_status_name(v: DeviceStatus) -> Seq<char> {
    match v {
        DeviceStatus::Online => "online"@,
        DeviceStatus::Offline => "offline"@,
        DeviceStatus::Degraded => "degraded"@,
        DeviceStatus::IdentityConflict => "identity_conflict"@,
        DeviceStatus::Disabled => "disabled"@,
    }
}

impl DeviceStatus {
    pub fn as_str(self) -> (r: &'static str)
        ensures
            r@ == device_status_name(self),
    {
        match self {
            DeviceStatus::Online => "online",
            DeviceStatus::Offline => "offline",
            DeviceStatus::Degraded => "degraded",
            DeviceStatus::IdentityConflict => "identity_conflict",
            DeviceStatus::Disabled => "disabled",
        }
    }
}

/// The health of one layer of a device's connectivity.
#[derive(Clone, Copy, Debug, PartialEq, Eq, Structural)]
pub enum LayerStatus {
    /// Working normally (wire name `ok`).
    Healthy,
    Warning,
    Error,
    Unknown,
    Unavailable,
}

/// The wire name of a [`LayerStatus`].
pub open spec fn layer_status_name(v: LayerStatus) -> Seq<char> {
    match v {
        LayerStatus::Healthy => "ok"@,
        LayerStatus::Warning => "warning"@,
        LayerStatus::Error => "error"@,
        LayerStatus::Unknown => "unknown"@,
        LayerStatus::Unavailable => "unavailable"@,
    }
}

impl LayerStatus {
    pub fn as_str(self) -> (r: &'static str)
        ensures
            r@ == layer_status_name(self),
    {
        match self {
            LayerStatus::Healthy => "ok",
            LayerStatus::Warning => "warning",
            LayerStatus::Error => "error",
            LayerStatus::Unknown => "unknown",
            LayerStatus::Unavailable => "unavailable",
        }
    }
}

/// Whether a configuration was applied.
#[derive(Clone, Copy, Debug, PartialEq, Eq, Structural)]
pub enum ConfigApplyStatus {
    Applied,
    Failed,
}

/// The wire name of a [`ConfigApplyStatus`].
pub open spec fn config_apply_status_name(v: ConfigApplyStatus) -> Seq<char> {
    match v {
        ConfigApplyStatus::Applied => "applied"@,
        ConfigApplyStatus::Failed => "failed"@,
    }
}

impl ConfigApplyStatus {
    pub fn as_str(self) -> (r: &'static str)
        ensures
            r@ == config_apply_status_name(self),
    {
        match self {
            ConfigApplyStatus::Applied => "applied",
            ConfigApplyStatus::Failed => "failed",
        }
    }
}

/// How a command ended.
#[derive(Clone, Copy, Debug, PartialEq, Eq, Structural)]
pub enum CommandResultStatus {
    Succeeded,
    Failed,
    Unknown,
}

/// The wire name of a [`CommandResultStatus`].
pub open spec fn command_result_status_name(v: CommandResultStatus) -> Seq<char> {
    match v {
        CommandResultStatus::Succeeded => "succeeded"@,
        CommandResultStatus::Failed => "failed"@,
        CommandResultStatus::Unknown => "unknown"@,
    }
}

impl CommandResultStatus {
    pub fn as_str(self) -> (r: &'static str)
        ensures
            r@ == command_result_status_name(self),
    {
        match self {
            CommandResultStatus::Succeeded => "succeeded",
            CommandResultStatus::Failed => "failed",
            CommandResultStatus::Unknown => "unknown",
        }
    }
}

/// An agent's request to register with the hub.
#[derive(Debug, Clone, PartialEq)]
pub struct AgentRegistrationRequest {
    pub installation_id: String,
    pub agent_type: AgentType,
    pub connection_scope: ConnectionScope,
    pub hostname: String,
    pub version: String,
    pub suggested_device_name: Option<String>,
    pub bootstrap_token: Option<String>,
    pub enrollment_token: Option<String>,
    pub hardware_fingerprint: Option<HardwareFingerprintPayload>,
}

/// The hub's answer to a registration.
#[derive(Debug, Clone, PartialEq)]
pub struct AgentRegistrationResponse {
    pub agent_id: String,
    pub pairing_code: String,
    pub pairing_status: String,
}

/// Whether a registered agent was claimed, and its devices.
#[derive(Debug, Clone, PartialEq)]
pub struct AgentClaimResponse {
    pub approved: bool,
    pub agent_id: String,
    pub device_ids: Vec<String>,
}

/// What identifies a piece of hardware.
#[derive(Debug, Clone, PartialEq, Eq)]
pub struct HardwareFingerprintPayload {
    pub imei: Option<String>,
    pub usb_serial: Option<String>,
    pub vendor_id: Option<String>,
    pub product_id: Option<String>,
}

/// Devices a host agent discovered.
#[derive(Debug, Clone, PartialEq, Eq)]
pub struct HostDiscoveryBatchPayload {
    pub items: Vec<HostDiscoveryItem>,
}

/// Whether discovery is switched on.
#[derive(Debug, Clone, PartialEq, Eq)]
pub struct DiscoverySyncPayload {
    pub enabled: bool,
}

/// One device a host agent discovered.
#[derive(Debug, Clone, PartialEq, Eq)]
pub struct HostDiscoveryItem {
    pub item_id: String,
    pub discovery_id: String,
    pub fingerprint: HardwareFingerprintPayload,
    pub usb_path: String,
    pub control_paths: Vec<String>,
    pub network_interfaces: Vec<String>,
    pub backend: String,
    pub capabilities: Vec<String>,
}

/// The bindings the hub wants a host to apply.
#[derive(Debug, Clone, PartialEq, Eq)]
pub struct BindingSyncPayload {
    pub version: i64,
    pub bindings: Vec<HostBindingPayload>,
}

/// One binding of a device to hardware.
#[derive(Debug, Clone, PartialEq, Eq)]
pub struct HostBindingPayload {
    pub device_id: String,
    pub fingerprint: HardwareFingerprintPayload,
    pub binding_policy: BindingPolicyPayload,
    pub slot_id: Option<String>,
    pub usb_path: String,
    pub control_paths: Vec<String>,
    pub backend: String,
    pub capabilities: Vec<String>,
    pub binding_version: i64,
}

/// Whether a host applied the bindings.
#[derive(Debug, Clone, PartialEq, Eq)]
pub struct BindingApplyResultPayload {
    pub version: i64,
    pub status: ConfigApplyStatus,
    pub error_message: Option<String>,
}

/// An agent's periodic sign of life.
#[derive(Debug)]
pub struct HeartbeatPayload {
    pub agent_type: AgentType,
    pub agent_version: String,
    pub session_generation: i64,
    pub managed_device_count: u32,
    pub local_queue_size: u64,
    pub timestamp: Timestamp,
    pub host_summary: Option<Json>,
}

/// The hub's greeting once a session is up.
#[derive(Debug, Clone, PartialEq)]
pub struct SessionReadyPayload {
    pub session_generation: i64,
    pub server_time: Timestamp,
    pub heartbeat_interval_seconds: u32,
    pub hub_instance_id: Option<String>,
    pub hub_version: Option<String>,
    pub canonical_public_url: Option<String>,
}

/// What a device needs to join a hub.
#[derive(Debug, Clone, PartialEq, Eq)]
pub struct DeviceProvisionRequest {
    pub hub_url: String,
    pub hub_instance_id: String,
    pub hub_version: String,
    pub enrollment_token: String,
}

/// The hub's answer to a heartbeat.
#[derive(Debug, Clone, PartialEq)]
pub struct HeartbeatAckPayload {
    pub server_time: Timestamp,
    pub heartbeat_interval_seconds: u32,
}

/// Text messages reported together.
#[derive(Debug)]
pub struct SmsBatchPayload {
    pub items: Vec<SmsItem>,
}

/// Events reported together.
#[derive(Debug)]
pub struct EventBatchPayload {
    pub items: Vec<EventItem>,
}

/// Diagnostics reported together.
#[derive(Debug)]
pub struct DiagnosticBatchPayload {
    pub items: Vec<DiagnosticItem>,
}

/// One diagnostic from a device.
#[derive(Debug)]
pub struct DiagnosticItem {
    pub item_id: String,
    pub device_id: String,
    pub occurred_at: Timestamp,
    pub level: DiagnosticLevel,
    pub category: String,
    pub message: String,
    pub details: Json,
}

/// One event on a device.
#[derive(Debug)]
pub struct EventItem {
    pub item_id: String,
    pub device_id: String,
    pub event_type: EventType,
    pub event_code: String,
    pub occurred_at: Timestamp,
    pub summary: String,
    pub details: Json,
    pub local_fallback_applied: bool,
}

/// One text message.
#[derive(Debug)]
pub struct SmsItem {
    pub item_id: String,
    pub device_id: String,
    pub direction: SmsDirection,
    pub phone_number: String,
    pub content: String,
    pub timestamp: Timestamp,
    pub status: SmsStatus,
    pub pdu: Option<String>,
    pub transport: String,
    pub iccid: Option<String>,
    pub imsi: Option<String>,
    pub operator_name: Option<String>,
    pub hub_command_id: Option<String>,
}

/// What a device reports of each of its features.
#[derive(Debug)]
pub struct DeviceFeatureSnapshot {
    pub sim: Json,
    pub esim: Json,
    pub cellular: Json,
    pub device_network: Json,
    pub vowifi: Json,
    pub volte: Json,
    pub phone: Json,
    pub system: Json,
    pub local_notifications: Json,
    pub local_automation: Json,
    pub policy_status: Json,
}

/// An action for a device, with its parameters.
#[derive(Debug)]
pub struct DeviceActionCommandPayload {
    pub action: DeviceAction,
    pub parameters: Json,
}

/// The hub's acknowledgement of the items of a message.
#[derive(Debug, Clone, PartialEq)]
pub struct MessageAckPayload {
    pub source_message_id: String,
    pub items: Vec<ItemAck>,
}

/// Whether one item was accepted.
#[derive(Debug, Clone, PartialEq)]
pub struct ItemAck {
    pub item_id: String,
    pub accepted: bool,
    pub error_code: Option<String>,
    pub message: Option<String>,
    pub hub_handled: Option<bool>,
}

/// A command from the hub.
#[derive(Debug)]
pub struct CommandPayload {
    pub command_id: String,
    pub trace_id: String,
    pub command_type: String,
    pub expires_at: Timestamp,
    pub payload: Json,
}

/// A text message to send.
#[derive(Debug, Clone, PartialEq)]
pub struct SendSmsCommandPayload {
    pub phone_number: String,
    pub content: String,
}

/// The configuration the hub wants an agent to apply.
#[derive(Debug)]
pub struct ConfigSyncPayload {
    pub desired_version: i64,
    pub desired_hash: String,
    pub schema_version: u16,
    pub managed_policy: Json,
}

/// Whether an agent applied a configuration.
#[derive(Debug, Clone, PartialEq)]
pub struct ConfigApplyResultPayload {
    pub desired_version: i64,
    pub desired_hash: String,
    pub status: ConfigApplyStatus,
    pub applied_at: Timestamp,
    pub error_message: Option<String>,
}

/// An update to download and install.
#[derive(Debug, Clone, PartialEq)]
pub struct OtaUpdateCommandPayload {
    pub package_id: String,
    pub source: String,
    pub target_version: String,
    pub architecture: String,
    pub sha256: Option<String>,
    pub download_url: String,
}

/// A device API call relayed by the hub.
#[derive(Debug)]
pub struct DeviceApiRequestPayload {
    pub method: String,
    pub path: String,
    pub body: Json,
}

/// The answer to a relayed device API call.
#[derive(Debug)]
pub struct DeviceApiResponsePayload {
    pub status: u16,
    pub body: Json,
}

/// Whether an agent accepted a command.
#[derive(Debug, Clone, PartialEq)]
pub struct CommandAckPayload {
    pub command_id: String,
    pub accepted: bool,
    pub acknowledged_at: Timestamp,
    pub error_code: Option<String>,
    pub message: Option<String>,
}

/// How a command ended, with its result.
#[derive(Debug)]
pub struct CommandResultPayload {
    pub command_id: String,
    pub status: CommandResultStatus,
    pub finished_at: Timestamp,
    pub result: Json,
    pub error_message: Option<String>,
}

/// How a device is bound to hardware.
#[derive(Clone, Copy, Debug, PartialEq, Eq, Structural)]
pub enum BindingPolicyPayload {
    HardwareBound,
    SlotBound,
}

impl Default for BindingPolicyPayload {
    fn default() -> (r: Self)
        ensures
            r == BindingPolicyPayload::HardwareBound,
    {
        BindingPolicyPayload::HardwareBound
    }
}

impl Default for HardwareFingerprintPayload {
    fn default() -> (r: Self)
        ensures
            r.imei is None,
            r.usb_serial is None,
            r.vendor_id is None,
            r.product_id is None,
    {
        HardwareFingerprintPayload { imei: None, usb_serial: None, vendor_id: None, product_id: None }
    }
}

impl Default for DeviceFeatureSnapshot {
    /// Every feature unreported (`null`).
    fn default() -> (r: Self)
        ensures
            r.sim is Null,
            r.esim is Null,
            r.cellular is Null,
            r.device_network is Null,
            r.vowifi is Null,
            r.volte is Null,
            r.phone is Null,
            r.system is Null,
            r.local_notifications is Null,
            r.local_automation is Null,
            r.policy_status is Null,
    {
        DeviceFeatureSnapshot {
            sim: Json::Null,
            esim: Json::Null,
            cellular: Json::Null,
            device_network: Json::Null,
            vowifi: Json::Null,
            volte: Json::Null,
            phone: Json::Null,
            system: Json::Null,
            local_notifications: Json::Null,
            local_automation: Json::Null,
            policy_status: Json::Null,
        }
    }
}

/// The transport of a text message that names none.
pub fn default_sms_transport() -> (r: String)
    ensures
        r@ == "modem"@,
{
    "modem".to_owned()
}

} // verus!
