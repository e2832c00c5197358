//! Channel configurations, the values a configuration takes for fields it
//! leaves out, and the rules a configuration must meet before a send.
use vstd::prelude::*;
use crate::notify::channel::ChannelType;
use crate::notify::error::{invalid, NotifyError, NotifyErrorView};
use crate::text::{concat_str, is_blank, is_blank_str, uppercase, str_eq, to_uppercase, trim};

verus! {

/// The HTTP method a webhook uses when its configuration names none.
pub fn post_method() -> (r: String)
    ensures
        r@ == "POST"@,
{
    "POST".to_owned()
}

/// The Bark server used when the configuration names none.
pub fn bark_server() -> (r: String)
    ensures
        r@ == "https://api.day.app"@,
{
    "https://api.day.app".to_owned()
}

/// The WeCom API base used when the configuration names none.
pub fn wecom_api() -> (r: String)
    ensures
        r@ == "https://qyapi.weixin.qq.com"@,
{
    "https://qyapi.weixin.qq.com".to_owned()
}

/// The Telegram API base used when the configuration names none.
pub fn telegram_api() -> (r: String)
    ensures
        r@ == "https://api.telegram.org"@,
{
    "https://api.telegram.org".to_owned()
}

/// The WeCom recipient used when the configuration names none: everyone.
pub fn at_all() -> (r: String)
    ensures
        r@ == "@all"@,
{
    "@all".to_owned()
}

/// Bark keeps history unless told otherwise.
pub fn default_true() -> (r: bool)
    ensures
        r,
{
    true
}

/// The SMTP port used when the configuration names none.
pub fn smtp_port() -> (r: u16)
    ensures
        r == 465,
{
    465
}

/// The SMTP security used when the configuration names none.
pub fn smtp_security() -> (r: String)
    ensures
        r@ == "implicit_tls"@,
{
    "implicit_tls".to_owned()
}

#[derive(Debug, Clone)]
pub struct WebhookConfig {
    pub url: String,
    pub http_method: String,
    /// Extra request headers, in the order they are sent. Read from a JSON
    /// object, their names are distinct ([`header_names_distinct`]).
    pub headers: Vec<(String, String)>,
    pub secret: String,
}

#[derive(Debug, Clone)]
pub struct BarkConfig {
    pub server_url: String,
    pub device_key: String,
    pub group: String,
    pub sound: String,
    pub level: String,
    pub icon: String,
    pub click_url: String,
    pub copy: String,
    pub auto_copy: bool,
    pub save_history: bool,
}

#[derive(Debug, Clone)]
pub struct PushplusConfig {
    pub token: String,
    pub topic: String,
    pub template: String,
    pub channel: String,
    pub option: String,
    pub callback_url: String,
    pub api_url: String,
}

#[derive(Debug, Clone)]
pub struct WecomAppConfig {
    pub api_base_url: String,
    pub corp_id: String,
    pub agent_id: String,
    pub secret: String,
    pub to_user: String,
    pub to_party: String,
    pub to_tag: String,
    pub safe: bool,
}

#[derive(Debug, Clone)]
pub struct WecomRobotConfig {
    pub webhook_url: String,
    pub key: String,
}

#[derive(Debug, Clone)]
pub struct DingtalkRobotConfig {
    pub webhook_url: String,
    pub access_token: String,
    pub secret: String,
    pub at_mobiles: String,
    pub at_all: bool,
}

#[derive(Debug, Clone)]
pub struct DingtalkAppConfig {
    pub app_key: String,
    pub app_secret: String,
    pub robot_code: String,
    pub open_conversation_id: String,
    pub msg_key: String,
    pub api_base_url: String,
}

#[derive(Debug, Clone)]
pub struct FeishuRobotConfig {
    pub webhook_url: String,
    pub token: String,
    pub secret: String,
}

#[derive(Debug, Clone)]
pub struct TelegramConfig {
    pub api_base_url: String,
    pub bot_token: String,
    pub chat_id: String,
    pub parse_mode: String,
    pub disable_web_page_preview: bool,
}

#[derive(Debug, Clone)]
pub struct EmailConfig {
    pub smtp_host: String,
    pub smtp_port: u16,
    pub smtp_security: String,
    pub allow_insecure_tls: bool,
    pub username: String,
    pub password: String,
    pub sender_address: String,
    pub sender_name: String,
    pub receiver_addresses: String,
    pub message_format: String,
}

#[derive(Debug, Clone)]
pub struct Serverchan3Config {
    pub send_key: String,
    pub uid: String,
    pub channel: String,
    pub openid: String,
    pub api_url: String,
}

pub open spec fn empty(s: String) -> bool {
    s@ == Seq::<char>::empty()
}

/// Whether no two headers share a name, as in the JSON object of headers a
/// webhook configuration is read from.
pub open spec fn header_names_distinct(headers: Seq<(String, String)>) -> bool {
    forall|i: int, j: int| 0 <= i < j < headers.len() ==> headers[i].0@ != headers[j].0@
}

impl Default for WebhookConfig {
    fn default() -> (r: Self)
        ensures
            empty(r.url),
            empty(r.http_method),
            r.headers@.len() == 0,
            header_names_distinct(r.headers@),
            empty(r.secret),
    {
        WebhookConfig {
            url: String::new(),
            http_method: String::new(),
            headers: Vec::new(),
            secret: String::new(),
        }
    }
}

impl Default for BarkConfig {
    /// The configuration read from an empty object.
    fn default() -> (r: Self)
        ensures
            r.server_url@ == "https://api.day.app"@,
            empty(r.device_key),
            empty(r.group),
            empty(r.sound),
            empty(r.level),
            empty(r.icon),
            empty(r.click_url),
            empty(r.copy),
            !r.auto_copy,
            r.save_history,
    {
        BarkConfig {
            server_url: bark_server(),
            device_key: String::new(),
            group: String::new(),
            sound: String::new(),
            level: String::new(),
            icon: String::new(),
            click_url: String::new(),
            copy: String::new(),
            auto_copy: false,
            save_history: default_true(),
        }
    }
}

impl Default for PushplusConfig {
    fn default() -> (r: Self)
        ensures
            empty(r.token),
            empty(r.topic),
            empty(r.template),
            empty(r.channel),
            empty(r.option),
            empty(r.callback_url),
            empty(r.api_url),
    {
        PushplusConfig {
            token: String::new(),
            topic: String::new(),
            template: String::new(),
            channel: String::new(),
            option: String::new(),
            callback_url: String::new(),
            api_url: String::new(),
        }
    }
}

impl Default for WecomAppConfig {
    /// The configuration read from an empty object.
    fn default() -> (r: Self)
        ensures
            r.api_base_url@ == "https://qyapi.weixin.qq.com"@,
            empty(r.corp_id),
            empty(r.agent_id),
            empty(r.secret),
            r.to_user@ == "@all"@,
            empty(r.to_party),
            empty(r.to_tag),
            !r.safe,
    {
        WecomAppConfig {
            api_base_url: wecom_api(),
            corp_id: String::new(),
            agent_id: String::new(),
            secret: String::new(),
            to_user: at_all(),
            to_party: String::new(),
            to_tag: String::new(),
            safe: false,
        }
    }
}

impl Default for WecomRobotConfig {
    fn default() -> (r: Self)
        ensures
            empty(r.webhook_url),
            empty(r.key),
    {
        WecomRobotConfig { webhook_url: String::new(), key: String::new() }
    }
}

impl Default for DingtalkRobotConfig {
    fn default() -> (r: Self)
        ensures
            empty(r.webhook_url),
            empty(r.access_token),
            empty(r.secret),
            empty(r.at_mobiles),
            !r.at_all,
    {
        DingtalkRobotConfig {
            webhook_url: String::new(),
            access_token: String::new(),
            secret: String::new(),
            at_mobiles: String::new(),
            at_all: false,
        }
    }
}

impl Default for DingtalkAppConfig {
    fn default() -> (r: Self)
        ensures
            empty(r.app_key),
            empty(r.app_secret),
            empty(r.robot_code),
            empty(r.open_conversation_id),
            empty(r.msg_key),
            empty(r.api_base_url),
    {
        DingtalkAppConfig {
            app_key: String::new(),
            app_secret: String::new(),
            robot_code: String::new(),
            open_conversation_id: String::new(),
            msg_key: String::new(),
            api_base_url: String::new(),
        }
    }
}

impl Default for FeishuRobotConfig {
    fn default() -> (r: Self)
        ensures
            empty(r.webhook_url),
            empty(r.token),
            empty(r.secret),
    {
        FeishuRobotConfig { webhook_url: String::new(), token: String::new(), secret: String::new() }
    }
}

impl Default for TelegramConfig {
    /// The configuration read from an empty object.
    fn default() -> (r: Self)
        ensures
            r.api_base_url@ == "https://api.telegram.org"@,
            empty(r.bot_token),
            empty(r.chat_id),
            empty(r.parse_mode),
            !r.disable_web_page_preview,
    {
        TelegramConfig {
            api_base_url: telegram_api(),
            bot_token: String::new(),
            chat_id: String::new(),
            parse_mode: String::new(),
            disable_web_page_preview: false,
        }
    }
}

impl Default for EmailConfig {
    fn default() -> (r: Self)
        ensures
            empty(r.smtp_host),
            r.smtp_port == 0,
            empty(r.smtp_security),
            !r.allow_insecure_tls,
            empty(r.username),
            empty(r.password),
            empty(r.sender_address),
            empty(r.sender_name),
            empty(r.receiver_addresses),
            empty(r.message_format),
    {
        EmailConfig {
            smtp_host: String::new(),
            smtp_port: 0,
            smtp_security: String::new(),
            allow_insecure_tls: false,
            username: String::new(),
            password: String::new(),
            sender_address: String::new(),
            sender_name: String::new(),
            receiver_addresses: String::new(),
            message_format: String::new(),
        }
    }
}

impl Default for Serverchan3Config {
    fn default() -> (r: Self)
        ensures
            empty(r.send_key),
            empty(r.uid),
            empty(r.channel),
            empty(r.openid),
            empty(r.api_url),
    {
        Serverchan3Config {
            send_key: String::new(),
            uid: String::new(),
            channel: String::new(),
            openid: String::new(),
            api_url: String::new(),
        }
    }
}

/// The configuration of one channel, read from its JSON object.
#[derive(Debug, Clone)]
pub enum ChannelConfig {
    Webhook(WebhookConfig),
    Bark(BarkConfig),
    Pushplus(PushplusConfig),
    WecomApp(WecomAppConfig),
    WecomRobot(WecomRobotConfig),
    DingtalkRobot(DingtalkRobotConfig),
    DingtalkApp(DingtalkAppConfig),
    FeishuRobot(FeishuRobotConfig),
    Telegram(TelegramConfig),
    Email(EmailConfig),
    Serverchan3(Serverchan3Config),
}

pub open spec fn config_channel(c: ChannelConfig) -> ChannelType {
    match c {
        ChannelConfig::Webhook(_) => ChannelType::Webhook,
        ChannelConfig::Bark(_) => ChannelType::Bark,
        ChannelConfig::Pushplus(_) => ChannelType::Pushplus,
        ChannelConfig::WecomApp(_) => ChannelType::WecomApp,
        ChannelConfig::WecomRobot(_) => ChannelType::WecomRobot,
        ChannelConfig::DingtalkRobot(_) => ChannelType::DingtalkRobot,
        ChannelConfig::DingtalkApp(_) => ChannelType::DingtalkApp,
        ChannelConfig::FeishuRobot(_) => ChannelType::FeishuRobot,
        ChannelConfig::Telegram(_) => ChannelType::Telegram,
        ChannelConfig::Email(_) => ChannelType::Email,
        ChannelConfig::Serverchan3(_) => ChannelType::Serverchan3,
    }
}

/// Whether `c` is the configuration of channel `t` with no field set: every
/// field holds the default it takes when the JSON object leaves it out (the
/// webhook URL, which the object must name, is empty).
pub open spec fn is_unset_config(c: ChannelConfig, t: ChannelType) -> bool {
    config_channel(c) == t && match c {
        ChannelConfig::Webhook(w) => empty(w.url) && w.http_method@ == "POST"@
            && w.headers@.len() == 0 && empty(w.secret),
        ChannelConfig::Bark(b) => b.server_url@ == "https://api.day.app"@ && empty(b.device_key)
            && empty(b.group) && empty(b.sound) && empty(b.level) && empty(b.icon) && empty(
            b.click_url,
        ) && empty(b.copy) && !b.auto_copy && b.save_history,
        ChannelConfig::Pushplus(p) => empty(p.token) && empty(p.topic) && empty(p.template)
            && empty(p.channel) && empty(p.option) && empty(p.callback_url) && empty(p.api_url),
        ChannelConfig::WecomApp(w) => w.api_base_url@ == "https://qyapi.weixin.qq.com"@ && empty(
            w.corp_id,
        ) && empty(w.agent_id) && empty(w.secret) && w.to_user@ == "@all"@ && empty(w.to_party)
            && empty(w.to_tag) && !w.safe,
        ChannelConfig::WecomRobot(w) => empty(w.webhook_url) && empty(w.key),
        ChannelConfig::DingtalkRobot(d) => empty(d.webhook_url) && empty(d.access_token) && empty(
            d.secret,
        ) && empty(d.at_mobiles) && !d.at_all,
        ChannelConfig::DingtalkApp(d) => empty(d.app_key) && empty(d.app_secret) && empty(
            d.robot_code,
        ) && empty(d.open_conversation_id) && empty(d.msg_key) && empty(d.api_base_url),
        ChannelConfig::FeishuRobot(f) => empty(f.webhook_url) && empty(f.token) && empty(f.secret),
        ChannelConfig::Telegram(t) => t.api_base_url@ == "https://api.telegram.org"@ && empty(
            t.bot_token,
        ) && empty(t.chat_id) && empty(t.parse_mode) && !t.disable_web_page_preview,
        ChannelConfig::Email(e) => empty(e.smtp_host) && e.smtp_port == 465 && e.smtp_security@
            == "implicit_tls"@ && !e.allow_insecure_tls && empty(e.username) && empty(e.password)
            && empty(e.sender_address) && empty(e.sender_name) && empty(e.receiver_addresses)
            && empty(e.message_format),
        ChannelConfig::Serverchan3(s) => empty(s.send_key) && empty(s.uid) && empty(s.channel)
            && empty(s.openid) && empty(s.api_url),
    }
}

impl ChannelConfig {
    pub fn channel_type(&self) -> (r: ChannelType)
        ensures
            r == config_channel(*self),
    {
        match self {
            ChannelConfig::Webhook(_) => ChannelType::Webhook,
            ChannelConfig::Bark(_) => ChannelType::Bark,
            ChannelConfig::Pushplus(_) => ChannelType::Pushplus,
            ChannelConfig::WecomApp(_) => ChannelType::WecomApp,
            ChannelConfig::WecomRobot(_) => ChannelType::WecomRobot,
            ChannelConfig::DingtalkRobot(_) => ChannelType::DingtalkRobot,
            ChannelConfig::DingtalkApp(_) => ChannelType::DingtalkApp,
            ChannelConfig::FeishuRobot(_) => ChannelType::FeishuRobot,
            ChannelConfig::Telegram(_) => ChannelType::Telegram,
            ChannelConfig::Email(_) => ChannelType::Email,
            ChannelConfig::Serverchan3(_) => ChannelType::Serverchan3,
        }
    }

    /// The configuration of a channel with no field set.
    pub fn unset(t: ChannelType) -> (r: ChannelConfig)
        ensures
            is_unset_config(r, t),
    {
        match t {
            ChannelType::Webhook => {
                let mut w = WebhookConfig::default();
                w.http_method = post_method();
                ChannelConfig::Webhook(w)
            },
            ChannelType::Bark => ChannelConfig::Bark(BarkConfig::default()),
            ChannelType::Pushplus => ChannelConfig::Pushplus(PushplusConfig::default()),
            ChannelType::WecomApp => ChannelConfig::WecomApp(WecomAppConfig::default()),
            ChannelType::WecomRobot => ChannelConfig::WecomRobot(WecomRobotConfig::default()),
            ChannelType::DingtalkRobot => ChannelConfig::DingtalkRobot(DingtalkRobotConfig::default()),
            ChannelType::DingtalkApp => ChannelConfig::DingtalkApp(DingtalkAppConfig::default()),
            ChannelType::FeishuRobot => ChannelConfig::FeishuRobot(FeishuRobotConfig::default()),
            ChannelType::Telegram => ChannelConfig::Telegram(TelegramConfig::default()),
            ChannelType::Email => {
                let mut e = EmailConfig::default();
                e.smtp_port = smtp_port();
                e.smtp_security = smtp_security();
                ChannelConfig::Email(e)
            },
            ChannelType::Serverchan3 => ChannelConfig::Serverchan3(Serverchan3Config::default()),
        }
    }
}

/// The complaint about a required field: none unless it is blank.
pub open spec fn required_problem(value: Seq<char>, label: Seq<char>) -> Option<Seq<char>> {
    if is_blank(value) {
        Some(label + " is required"@)
    } else {
        None
    }
}

/// The first complaint of two.
pub open spec fn first_problem(a: Option<Seq<char>>, b: Option<Seq<char>>) -> Option<Seq<char>> {
    if a is Some {
        a
    } else {
        b
    }
}

/// The complaint about an upper-cased webhook method other than GET and POST.
pub open spec fn method_problem(upper: Seq<char>) -> Option<Seq<char>> {
    if upper != "GET"@ && upper != "POST"@ {
        Some("Webhook only supports GET and POST"@)
    } else {
        None
    }
}

/// Checks an upper-cased webhook method.
pub fn check_webhook_method(upper: &str) -> (r: Result<(), NotifyError>)
    ensures
        check_result(method_problem(upper@), r),
{
    if !str_eq(upper, "GET") && !str_eq(upper, "POST") {
        Err(invalid("Webhook only supports GET and POST".to_owned()))
    } else {
        Ok(())
    }
}

/// What is wrong with a channel configuration, if anything: the first rule
/// it breaks, in the order the rules are checked.
pub open spec fn config_problem(c: ChannelConfig) -> Option<Seq<char>> {
    match c {
        ChannelConfig::Webhook(w) => first_problem(
            required_problem(w.url@, "Webhook URL"@),
            method_problem(uppercase(w.http_method@)),
        ),
        ChannelConfig::Bark(b) => first_problem(
            required_problem(b.server_url@, "Bark server URL"@),
            required_problem(b.device_key@, "Bark device key"@),
        ),
        ChannelConfig::Pushplus(p) => required_problem(p.token@, "PushPlus token"@),
        ChannelConfig::WecomApp(w) => first_problem(
            required_problem(w.corp_id@, "WeCom CorpID"@),
            first_problem(
                required_problem(w.agent_id@, "WeCom AgentID"@),
                required_problem(w.secret@, "WeCom secret"@),
            ),
        ),
        ChannelConfig::WecomRobot(w) => if is_blank(w.webhook_url@) {
            required_problem(w.key@, "WeCom robot key"@)
        } else {
            None
        },
        ChannelConfig::DingtalkRobot(d) => if is_blank(d.webhook_url@) {
            required_problem(d.access_token@, "DingTalk access token"@)
        } else {
            None
        },
        ChannelConfig::DingtalkApp(d) => first_problem(
            required_problem(d.app_key@, "DingTalk AppKey"@),
            first_problem(
                required_problem(d.app_secret@, "DingTalk AppSecret"@),
                required_problem(d.open_conversation_id@, "DingTalk OpenConversationId"@),
            ),
        ),
        ChannelConfig::FeishuRobot(f) => if is_blank(f.webhook_url@) {
            required_problem(f.token@, "Feishu robot token"@)
        } else {
            None
        },
        ChannelConfig::Telegram(t) => first_problem(
            required_problem(t.bot_token@, "Telegram bot token"@),
            required_problem(t.chat_id@, "Telegram chat ID"@),
        ),
        ChannelConfig::Email(e) => first_problem(
            required_problem(e.smtp_host@, "SMTP host"@),
            first_problem(
                required_problem(e.sender_address@, "email sender"@),
                required_problem(e.receiver_addresses@, "email receiver"@),
            ),
        ),
        ChannelConfig::Serverchan3(s) => required_problem(s.send_key@, "ServerChan SendKey"@),
    }
}

/// The result of checking a configuration: fine, or `InvalidConfig` with the
/// complaint.
pub open spec fn check_result(p: Option<Seq<char>>, r: Result<(), NotifyError>) -> bool {
    match r {
        Ok(()) => p is None,
        Err(e) => p is Some && e.view() == NotifyErrorView::InvalidConfig(p->0),
    }
}

/// Fails with `"<label> is required"` when `value` is blank.
pub fn required(value: &str, label: &str) -> (r: Result<(), NotifyError>)
    ensures
        check_result(required_problem(value@, label@), r),
{
    if is_blank_str(value) {
        Err(invalid(concat_str(label, " is required")))
    } else {
        Ok(())
    }
}

/// Checks a channel configuration before anything is sent.
pub fn validate_config(config: &ChannelConfig) -> (r: Result<(), NotifyError>)
    ensures
        check_result(config_problem(*config), r),
{
    match config {
        ChannelConfig::Webhook(c) => {
            required(c.url.as_str(), "Webhook URL")?;
            let m = to_uppercase(c.http_method.as_str());
            check_webhook_method(m.as_str())?;
        },
        ChannelConfig::Bark(c) => {
            required(c.server_url.as_str(), "Bark server URL")?;
            required(c.device_key.as_str(), "Bark device key")?;
        },
        ChannelConfig::Pushplus(c) => {
            required(c.token.as_str(), "PushPlus token")?;
        },
        ChannelConfig::WecomApp(c) => {
            required(c.corp_id.as_str(), "WeCom CorpID")?;
            required(c.agent_id.as_str(), "WeCom AgentID")?;
            required(c.secret.as_str(), "WeCom secret")?;
        },
        ChannelConfig::WecomRobot(c) => {
            if is_blank_str(c.webhook_url.as_str()) {
                required(c.key.as_str(), "WeCom robot key")?;
            }
        },
        ChannelConfig::DingtalkRobot(c) => {
            if is_blank_str(c.webhook_url.as_str()) {
                required(c.access_token.as_str(), "DingTalk access token")?;
            }
        },
        ChannelConfig::DingtalkApp(c) => {
            required(c.app_key.as_str(), "DingTalk AppKey")?;
            required(c.app_secret.as_str(), "DingTalk AppSecret")?;
            required(c.open_conversation_id.as_str(), "DingTalk OpenConversationId")?;
        },
        ChannelConfig::FeishuRobot(c) => {
            if is_blank_str(c.webhook_url.as_str()) {
                required(c.token.as_str(), "Feishu robot token")?;
            }
        },
        ChannelConfig::Telegram(c) => {
            required(c.bot_token.as_str(), "Telegram bot token")?;
            required(c.chat_id.as_str(), "Telegram chat ID")?;
        },
        ChannelConfig::Email(c) => {
            required(c.smtp_host.as_str(), "SMTP host")?;
            required(c.sender_address.as_str(), "email sender")?;
            required(c.receiver_addresses.as_str(), "email receiver")?;
        },
        ChannelConfig::Serverchan3(c) => {
            required(c.send_key.as_str(), "ServerChan SendKey")?;
        },
    }
    Ok(())
}

/// Every channel refuses a configuration with no field set: each one has a
/// field that must be given.
pub proof fn lemma_unset_config_rejected(c: ChannelConfig, t: ChannelType)
    requires
        is_unset_config(c, t),
    ensures
        config_problem(c) is Some,
{
    assert(trim(Seq::<char>::empty()) =~= Seq::<char>::empty());
}

} // verus!
