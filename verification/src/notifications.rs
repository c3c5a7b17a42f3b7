//! Push notifications: the channels, their configuration and how a message
//! is sent on each.
use vstd::prelude::*;

use crate::text::{concat2, concat3, copy_str, opt_view, push_char};

verus! {

/// A channel notifications can be pushed to.
#[derive(Debug, Clone, Copy, PartialEq, Eq, Hash, Structural)]
pub enum PushChannel {
    Dingtalk,
    Wechat,
    Feishu,
    Bark,
    Ntfy,
    Telegram,
    Email,
    ServerChan,
    Webhook,
}

impl PushChannel {
    /// The channel's name in snake case, as configuration files write it.
    pub open spec fn spec_name(self) -> Seq<char> {
        match self {
            PushChannel::Dingtalk => "dingtalk"@,
            PushChannel::Wechat => "wechat"@,
            PushChannel::Feishu => "feishu"@,
            PushChannel::Bark => "bark"@,
            PushChannel::Ntfy => "ntfy"@,
            PushChannel::Telegram => "telegram"@,
            PushChannel::Email => "email"@,
            PushChannel::ServerChan => "server_chan"@,
            PushChannel::Webhook => "webhook"@,
        }
    }

    /// The channel's name in snake case.
    pub fn as_str(&self) -> (r: &'static str)
        ensures
            r@ == self.spec_name(),
    {
        match self {
            PushChannel::Dingtalk => "dingtalk",
            PushChannel::Wechat => "wechat",
            PushChannel::Feishu => "feishu",
            PushChannel::Bark => "bark",
            PushChannel::Ntfy => "ntfy",
            PushChannel::Telegram => "telegram",
            PushChannel::Email => "email",
            PushChannel::ServerChan => "server_chan",
            PushChannel::Webhook => "webhook",
        }
    }

    /// The channel's name in snake case, as it is displayed.
    pub fn to_string(&self) -> (r: String)
        ensures
            r@ == self.spec_name(),
    {
        copy_str(self.as_str())
    }

    /// How a message is delivered on this channel.
    pub open spec fn spec_transport(self) -> PushTransport {
        match self {
            PushChannel::Dingtalk | PushChannel::Wechat | PushChannel::Feishu
            | PushChannel::Webhook => PushTransport::Webhook,
            PushChannel::Bark | PushChannel::Ntfy => PushTransport::JsonPost,
            PushChannel::Telegram => PushTransport::Telegram,
            PushChannel::ServerChan => PushTransport::ServerChan,
            PushChannel::Email => PushTransport::Unsupported,
        }
    }

    /// How a message is delivered on this channel.
    pub fn transport(&self) -> (r: PushTransport)
        ensures
            r == self.spec_transport(),
    {
        match self {
            PushChannel::Dingtalk | PushChannel::Wechat | PushChannel::Feishu
            | PushChannel::Webhook => PushTransport::Webhook,
            PushChannel::Bark | PushChannel::Ntfy => PushTransport::JsonPost,
            PushChannel::Telegram => PushTransport::Telegram,
            PushChannel::ServerChan => PushTransport::ServerChan,
            PushChannel::Email => PushTransport::Unsupported,
        }
    }

    /// The shape of the JSON a webhook channel posts.
    pub open spec fn spec_webhook_payload(self) -> WebhookPayload {
        match self {
            PushChannel::Dingtalk | PushChannel::Wechat => WebhookPayload::MsgtypeText,
            PushChannel::Feishu => WebhookPayload::MsgTypeContent,
            _ => WebhookPayload::TitleBody,
        }
    }

    /// The shape of the JSON a webhook channel posts.
    pub fn webhook_payload(&self) -> (r: WebhookPayload)
        ensures
            r == self.spec_webhook_payload(),
    {
        match self {
            PushChannel::Dingtalk | PushChannel::Wechat => WebhookPayload::MsgtypeText,
            PushChannel::Feishu => WebhookPayload::MsgTypeContent,
            _ => WebhookPayload::TitleBody,
        }
    }

    /// The failure reported when the channel has nowhere to send to.
    pub open spec fn spec_missing_target(self) -> Seq<char> {
        match self.spec_transport() {
            PushTransport::Webhook => "No webhook URL configured"@,
            PushTransport::JsonPost => "No URL configured"@,
            PushTransport::Telegram => "No bot token configured"@,
            PushTransport::ServerChan => "No sendkey configured"@,
            PushTransport::Unsupported => "Email sending not implemented"@,
        }
    }

    /// The failure reported when the channel has nowhere to send to.
    pub fn missing_target_message(&self) -> (r: &'static str)
        ensures
            r@ == self.spec_missing_target(),
    {
        match self.transport() {
            PushTransport::Webhook => "No webhook URL configured",
            PushTransport::JsonPost => "No URL configured",
            PushTransport::Telegram => "No bot token configured",
            PushTransport::ServerChan => "No sendkey configured",
            PushTransport::Unsupported => "Email sending not implemented",
        }
    }
}

/// The snake-case names tell the channels apart.
pub proof fn law_channel_names_distinct(a: PushChannel, b: PushChannel)
    requires
        a != b,
    ensures
        a.spec_name() != b.spec_name(),
{
    reveal_strlit("dingtalk");
    reveal_strlit("wechat");
    reveal_strlit("feishu");
    reveal_strlit("bark");
    reveal_strlit("ntfy");
    reveal_strlit("telegram");
    reveal_strlit("email");
    reveal_strlit("server_chan");
    reveal_strlit("webhook");
    if a.spec_name() == b.spec_name() {
        assert(a.spec_name().len() == b.spec_name().len());
        assert(a.spec_name()[0] == b.spec_name()[0]);
        assert(a.spec_name()[1] == b.spec_name()[1]);
    }
}

/// How a channel delivers a message.
#[derive(Debug, Clone, Copy, PartialEq, Eq, Structural)]
pub enum PushTransport {
    /// A JSON POST in the format of the chat's robot webhook.
    Webhook,
    /// A JSON POST of title and body.
    JsonPost,
    /// A Telegram bot `sendMessage` call.
    Telegram,
    /// A form POST to ServerChan.
    ServerChan,
    /// Not supported: the push fails.
    Unsupported,
}

/// The JSON a webhook message is posted as.
#[derive(Debug, Clone, Copy, PartialEq, Eq, Structural)]
pub enum WebhookPayload {
    /// `{"msgtype": "text", "text": {"content": <message text>}}`.
    MsgtypeText,
    /// `{"msg_type": "text", "content": {"text": <message text>}}`.
    MsgTypeContent,
    /// `{"title": <title>, "body": <body>}`.
    TitleBody,
}

/// Where and how notifications are pushed.
#[derive(Debug, Clone)]
pub struct PushConfig {
    pub dingtalk_url: Option<String>,
    pub wechat_url: Option<String>,
    pub feishu_url: Option<String>,
    pub bark_url: Option<String>,
    pub bark_token: Option<String>,
    pub ntfy_topic: Option<String>,
    pub ntfy_url: Option<String>,
    pub telegram_token: Option<String>,
    pub telegram_chat_id: Option<String>,
    pub email: Option<String>,
    pub serverchan_sendkey: Option<String>,
    pub webhook_url: Option<String>,
    /// The channels notifications are pushed to, in order.
    pub enabled_channels: Vec<PushChannel>,
}

impl Default for PushConfig {
    fn default() -> (r: PushConfig)
        ensures
            r.dingtalk_url is None,
            r.wechat_url is None,
            r.feishu_url is None,
            r.bark_url is None,
            r.bark_token is None,
            r.ntfy_topic is None,
            r.ntfy_url is None,
            r.telegram_token is None,
            r.telegram_chat_id is None,
            r.email is None,
            r.serverchan_sendkey is None,
            r.webhook_url is None,
            r.enabled_channels@.len() == 0,
    {
        PushConfig {
            dingtalk_url: None,
            wechat_url: None,
            feishu_url: None,
            bark_url: None,
            bark_token: None,
            ntfy_topic: None,
            ntfy_url: None,
            telegram_token: None,
            telegram_chat_id: None,
            email: None,
            serverchan_sendkey: None,
            webhook_url: None,
            enabled_channels: Vec::new(),
        }
    }
}

/// `o`'s text, or `d` when there is none.
pub open spec fn or_default(o: Option<Seq<char>>, d: Seq<char>) -> Seq<char> {
    match o {
        Some(s) => s,
        None => d,
    }
}

impl PushConfig {
    /// The address a channel posts to, when it has one: the configured URL
    /// for the webhook channels and e-mail; Bark's and ntfy's server (or
    /// their public default) followed by the token or topic; Telegram's bot
    /// API for the token; ServerChan's API for the send key.
    pub open spec fn spec_channel_url(self, channel: PushChannel) -> Option<Seq<char>> {
        match channel {
            PushChannel::Dingtalk => opt_view(self.dingtalk_url),
            PushChannel::Wechat => opt_view(self.wechat_url),
            PushChannel::Feishu => opt_view(self.feishu_url),
            PushChannel::Bark => Some(
                or_default(opt_view(self.bark_url), "https://api.day.app"@) + "/"@ + or_default(
                    opt_view(self.bark_token),
                    Seq::empty(),
                ),
            ),
            PushChannel::Ntfy => Some(
                or_default(opt_view(self.ntfy_url), "https://ntfy.sh"@) + "/"@ + or_default(
                    opt_view(self.ntfy_topic),
                    Seq::empty(),
                ),
            ),
            PushChannel::Telegram => match opt_view(self.telegram_token) {
                Some(t) => Some("https://api.telegram.org/bot"@ + t + "/sendMessage"@),
                None => None,
            },
            PushChannel::Email => opt_view(self.email),
            PushChannel::ServerChan => match opt_view(self.serverchan_sendkey) {
                Some(k) => Some("https://sctapi.ftqq.com/"@ + k + ".send"@),
                None => None,
            },
            PushChannel::Webhook => opt_view(self.webhook_url),
        }
    }

    /// Whether any channel is enabled.
    pub fn has_any_enabled(&self) -> (r: bool)
        ensures
            r == (self.enabled_channels@.len() > 0),
    {
        self.enabled_channels.len() > 0
    }

    /// The address `channel` posts to, if it has one.
    pub fn channel_url(&self, channel: &PushChannel) -> (r: Option<String>)
        ensures
            opt_view(r) == self.spec_channel_url(*channel),
    {
        match channel {
            PushChannel::Dingtalk => clone_opt(&self.dingtalk_url),
            PushChannel::Wechat => clone_opt(&self.wechat_url),
            PushChannel::Feishu => clone_opt(&self.feishu_url),
            PushChannel::Bark => Some(
                server_and_key(&self.bark_url, "https://api.day.app", &self.bark_token),
            ),
            PushChannel::Ntfy => Some(
                server_and_key(&self.ntfy_url, "https://ntfy.sh", &self.ntfy_topic),
            ),
            PushChannel::Telegram => match &self.telegram_token {
                Some(t) => Some(concat3("https://api.telegram.org/bot", t.as_str(), "/sendMessage")),
                None => None,
            },
            PushChannel::Email => clone_opt(&self.email),
            PushChannel::ServerChan => match &self.serverchan_sendkey {
                Some(k) => Some(concat3("https://sctapi.ftqq.com/", k.as_str(), ".send")),
                None => None,
            },
            PushChannel::Webhook => clone_opt(&self.webhook_url),
        }
    }
}

/// Each webhook channel and e-mail posts to its own configured address, and
/// to none when that address is not configured.
pub proof fn law_channels_use_their_own_address(cfg: PushConfig)
    ensures
        cfg.spec_channel_url(PushChannel::Dingtalk) == (match cfg.dingtalk_url {
            Some(u) => Some(u@),
            None => None::<Seq<char>>,
        }),
        cfg.spec_channel_url(PushChannel::Wechat) == (match cfg.wechat_url {
            Some(u) => Some(u@),
            None => None::<Seq<char>>,
        }),
        cfg.spec_channel_url(PushChannel::Feishu) == (match cfg.feishu_url {
            Some(u) => Some(u@),
            None => None::<Seq<char>>,
        }),
        cfg.spec_channel_url(PushChannel::Webhook) == (match cfg.webhook_url {
            Some(u) => Some(u@),
            None => None::<Seq<char>>,
        }),
        cfg.spec_channel_url(PushChannel::Email) == (match cfg.email {
            Some(u) => Some(u@),
            None => None::<Seq<char>>,
        }),
        cfg.telegram_token is None <==> cfg.spec_channel_url(PushChannel::Telegram) is None,
        cfg.serverchan_sendkey is None <==> cfg.spec_channel_url(PushChannel::ServerChan) is None,
        cfg.telegram_token matches Some(t) ==> cfg.spec_channel_url(PushChannel::Telegram) == Some(
            "https://api.telegram.org/bot"@ + t@ + "/sendMessage"@,
        ),
        cfg.serverchan_sendkey matches Some(k) ==> cfg.spec_channel_url(PushChannel::ServerChan)
            == Some("https://sctapi.ftqq.com/"@ + k@ + ".send"@),
        (cfg.bark_url matches Some(b) && cfg.bark_token matches Some(t)) ==> cfg.spec_channel_url(
            PushChannel::Bark,
        ) == Some(cfg.bark_url->0@ + "/"@ + cfg.bark_token->0@),
        (cfg.bark_url is None && cfg.bark_token matches Some(t)) ==> cfg.spec_channel_url(
            PushChannel::Bark,
        ) == Some("https://api.day.app/"@ + cfg.bark_token->0@),
        (cfg.ntfy_url matches Some(n) && cfg.ntfy_topic matches Some(t)) ==> cfg.spec_channel_url(
            PushChannel::Ntfy,
        ) == Some(cfg.ntfy_url->0@ + "/"@ + cfg.ntfy_topic->0@),
        (cfg.ntfy_url is None && cfg.ntfy_topic matches Some(t)) ==> cfg.spec_channel_url(
            PushChannel::Ntfy,
        ) == Some("https://ntfy.sh/"@ + cfg.ntfy_topic->0@),
{
    reveal_strlit("https://api.day.app");
    reveal_strlit("https://api.day.app/");
    reveal_strlit("https://ntfy.sh");
    reveal_strlit("https://ntfy.sh/");
    reveal_strlit("/");
    assert("https://api.day.app"@ + "/"@ =~= "https://api.day.app/"@);
    assert("https://ntfy.sh"@ + "/"@ =~= "https://ntfy.sh/"@);
}

fn clone_opt(o: &Option<String>) -> (r: Option<String>)
    ensures
        opt_view(r) == opt_view(*o),
{
    match o {
        Some(s) => Some(copy_str(s.as_str())),
        None => None,
    }
}

fn server_and_key(server: &Option<String>, default_server: &str, key: &Option<String>) -> (r: String)
    ensures
        r@ == or_default(opt_view(*server), default_server@) + "/"@ + or_default(
            opt_view(*key),
            Seq::empty(),
        ),
{
    let mut r = match server {
        Some(s) => copy_str(s.as_str()),
        None => copy_str(default_server),
    };
    let ghost head = r@;
    r.append("/");
    if let Some(k) = key {
        r.append(k.as_str());
    }
    proof {
        assert(or_default(opt_view(*key), Seq::empty()) == (match key {
            Some(k) => k@,
            None => Seq::<char>::empty(),
        }));
    }
    assert(r@ =~= head + "/"@ + or_default(opt_view(*key), Seq::empty()));
    r
}

/// The outcome of pushing to one channel.
#[derive(Debug, Clone)]
pub struct PushResult {
    pub channel: PushChannel,
    pub success: bool,
    pub message: String,
}

/// The text a chat message carries: the title, a line break, the body.
pub fn message_text(title: &str, body: &str) -> (r: String)
    ensures
        r@ == title@ + seq!['\n'] + body@,
{
    let mut r = copy_str(title);
    push_char(&mut r, '\n');
    r.append(body);
    r
}

/// The result of a push that could not be made on `channel`.
pub fn missing_target_result(channel: PushChannel) -> (r: PushResult)
    ensures
        r.channel == channel,
        !r.success,
        r.message@ == channel.spec_missing_target(),
{
    PushResult { channel, success: false, message: copy_str(channel.missing_target_message()) }
}

/// The title of the notice that a room went live: `<platform> 直播开始`.
pub fn live_start_title(platform: &str) -> (r: String)
    ensures
        r@ == platform@ + " 直播开始"@,
{
    concat2(platform, " 直播开始")
}

/// The title of the notice that a live show ended: `<platform> 直播结束`.
pub fn live_end_title(platform: &str) -> (r: String)
    ensures
        r@ == platform@ + " 直播结束"@,
{
    concat2(platform, " 直播结束")
}

/// The title of the notice that a recording failed.
pub fn recording_failed_title() -> (r: String)
    ensures
        r@ == "录制失败"@,
{
    copy_str("录制失败")
}

/// The title of the notice that the disk is almost full.
pub fn low_disk_title() -> (r: String)
    ensures
        r@ == "磁盘空间不足"@,
{
    copy_str("磁盘空间不足")
}

/// The text of the notice that a room went live: streamer, title and link,
/// one per line.
pub fn live_start_body(anchor_name: &str, title: &str, url: &str) -> (r: String)
    ensures
        r@ == "主播: "@ + anchor_name@ + "\n标题: "@ + title@ + "\n链接: "@ + url@,
{
    let mut r = concat2("主播: ", anchor_name);
    r.append("\n标题: ");
    r.append(title);
    r.append("\n链接: ");
    r.append(url);
    r
}

/// The text of the notice that a recording failed: streamer and reason,
/// one per line.
pub fn recording_failed_body(anchor_name: &str, reason: &str) -> (r: String)
    ensures
        r@ == "主播: "@ + anchor_name@ + "\n原因: "@ + reason@,
{
    let mut r = concat2("主播: ", anchor_name);
    r.append("\n原因: ");
    r.append(reason);
    r
}

} // verus!
