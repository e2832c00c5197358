//! The notification channels.
use vstd::prelude::*;

verus! {

/// A notification channel, named in configuration by its `snake_case` name.
#[derive(Clone, Copy, Debug, PartialEq, Eq, Structural)]
pub enum ChannelType {
    Webhook,
    Bark,
    Pushplus,
    WecomApp,
    WecomRobot,
    DingtalkRobot,
    DingtalkApp,
    FeishuRobot,
    Telegram,
    Email,
    Serverchan3,
}

/// The configuration name of a channel; it also names the provider in receipts.
pub open spec fn channel_name(t: ChannelType) -> Seq<char> {
    match t {
        ChannelType::Webhook => "webhook"@,
        ChannelType::Bark => "bark"@,
        ChannelType::Pushplus => "pushplus"@,
        ChannelType::WecomApp => "wecom_app"@,
        ChannelType::WecomRobot => "wecom_robot"@,
        ChannelType::DingtalkRobot => "dingtalk_robot"@,
        ChannelType::DingtalkApp => "dingtalk_app"@,
        ChannelType::FeishuRobot => "feishu_robot"@,
        ChannelType::Telegram => "telegram"@,
        ChannelType::Email => "email"@,
        ChannelType::Serverchan3 => "serverchan3"@,
    }
}

/// The configuration fields of a channel that hold secrets.
pub open spec fn secret_field_names(t: ChannelType) -> Seq<Seq<char>> {
    match t {
        ChannelType::Webhook => seq!["secret"@],
        ChannelType::Bark => seq!["device_key"@],
        ChannelType::Pushplus => seq!["token"@],
        ChannelType::WecomApp => seq!["secret"@],
        ChannelType::WecomRobot => seq!["key"@],
        ChannelType::DingtalkRobot => seq!["access_token"@, "secret"@],
        ChannelType::DingtalkApp => seq!["app_secret"@],
        ChannelType::FeishuRobot => seq!["token"@, "secret"@],
        ChannelType::Telegram => seq!["bot_token"@],
        ChannelType::Email => seq!["password"@],
        ChannelType::Serverchan3 => seq!["send_key"@],
    }
}

/// No two channels share a name, so a name identifies its channel.
pub proof fn lemma_channel_names_distinct(a: ChannelType, b: ChannelType)
    requires
        a != b,
    ensures
        channel_name(a) != channel_name(b),
{
    reveal_strlit("webhook");
    reveal_strlit("bark");
    reveal_strlit("pushplus");
    reveal_strlit("wecom_app");
    reveal_strlit("wecom_robot");
    reveal_strlit("dingtalk_robot");
    reveal_strlit("dingtalk_app");
    reveal_strlit("feishu_robot");
    reveal_strlit("telegram");
    reveal_strlit("email");
    reveal_strlit("serverchan3");
    if channel_name(a) == channel_name(b) {
        assert(channel_name(a).len() == channel_name(b).len());
        assert(channel_name(a)[0] == channel_name(b)[0]);
        assert(channel_name(a)[channel_name(a).len() - 1] == channel_name(b)[channel_name(b).len() - 1]);
        assert(channel_name(a)[7] == channel_name(b)[7]);
    }
}

impl ChannelType {
    /// Every channel, in declaration order.
    pub const ALL: [ChannelType; 11] = [
        ChannelType::Webhook,
        ChannelType::Bark,
        ChannelType::Pushplus,
        ChannelType::WecomApp,
        ChannelType::WecomRobot,
        ChannelType::DingtalkRobot,
        ChannelType::DingtalkApp,
        ChannelType::FeishuRobot,
        ChannelType::Telegram,
        ChannelType::Email,
        ChannelType::Serverchan3,
    ];

    pub fn as_str(self) -> (r: &'static str)
        ensures
            r@ == channel_name(self),
    {
        match self {
            ChannelType::Webhook => "webhook",
            ChannelType::Bark => "bark",
            ChannelType::Pushplus => "pushplus",
            ChannelType::WecomApp => "wecom_app",
            ChannelType::WecomRobot => "wecom_robot",
            ChannelType::DingtalkRobot => "dingtalk_robot",
            ChannelType::DingtalkApp => "dingtalk_app",
            ChannelType::FeishuRobot => "feishu_robot",
            ChannelType::Telegram => "telegram",
            ChannelType::Email => "email",
            ChannelType::Serverchan3 => "serverchan3",
        }
    }

    /// Every channel can be sent to.
    pub fn supported(self) -> (r: bool)
        ensures
            r,
    {
        true
    }

    pub fn secret_fields(self) -> (r: &'static [&'static str])
        ensures
            r@.map_values(|s: &str| s@) == secret_field_names(self),
    {
        let r: &'static [&'static str] = match self {
            ChannelType::Webhook => &["secret"],
            ChannelType::Bark => &["device_key"],
            ChannelType::Pushplus => &["token"],
            ChannelType::WecomApp => &["secret"],
            ChannelType::WecomRobot => &["key"],
            ChannelType::DingtalkRobot => &["access_token", "secret"],
            ChannelType::DingtalkApp => &["app_secret"],
            ChannelType::FeishuRobot => &["token", "secret"],
            ChannelType::Telegram => &["bot_token"],
            ChannelType::Email => &["password"],
            ChannelType::Serverchan3 => &["send_key"],
        };
        assert(r@.map_values(|s: &str| s@) =~= secret_field_names(self));
        r
    }
}

} // verus!
