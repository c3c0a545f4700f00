//! The alert dispatcher: resolves a channel's provider from its declared
//! type, builds the provider's request from the channel config and the
//! message, and reads the provider's answer. The outbound call itself is
//! made by the caller, once per channel.
use vstd::prelude::*;
use vstd::string::StringExecFns;
use crate::model::{AppError, Heartbeat, Monitor, MonitorStatus, Notification, NotificationConfig};
use crate::store::{
    by_name, configured, find_notification, linked_to, notification_of, MonitorStore,
};
use crate::text::{
    json_object, json_object_text, json_str_member, json_u64_member, str_eq, str_member,
    str_views, string_views, u64_member,
};

verus! {

pub struct Telegram {}

pub struct Discord {}

pub struct Email {}

impl Telegram {
    pub fn new() -> Self {
        Telegram {}
    }
}

impl Discord {
    pub fn new() -> Self {
        Discord {}
    }
}

impl Email {
    pub fn new() -> Self {
        Email {}
    }
}

/// The closed set of alert providers.
pub enum NotificationProvider {
    Telegram(Telegram),
    Discord(Discord),
    Email(Email),
}

/// The provider kinds, by the type name a channel declares.
#[derive(Clone, Copy, Debug, PartialEq, Eq, Structural)]
pub enum ProviderKind {
    Telegram,
    Discord,
    Email,
}

/// The provider a type name declares.
pub open spec fn provider_named(name: Seq<char>) -> Option<ProviderKind> {
    if name == "telegram"@ {
        Some(ProviderKind::Telegram)
    } else if name == "discord"@ {
        Some(ProviderKind::Discord)
    } else if name == "email"@ {
        Some(ProviderKind::Email)
    } else {
        None
    }
}

/// The type name of a provider kind.
pub open spec fn kind_name(k: ProviderKind) -> Seq<char> {
    match k {
        ProviderKind::Telegram => "telegram"@,
        ProviderKind::Discord => "discord"@,
        ProviderKind::Email => "email"@,
    }
}

impl NotificationProvider {
    pub open spec fn kind(&self) -> ProviderKind {
        match self {
            NotificationProvider::Telegram(_) => ProviderKind::Telegram,
            NotificationProvider::Discord(_) => ProviderKind::Discord,
            NotificationProvider::Email(_) => ProviderKind::Email,
        }
    }

    /// The provider's type name.
    pub fn name(&self) -> (r: &'static str)
        ensures
            r@ == kind_name(self.kind()),
    {
        match self {
            NotificationProvider::Telegram(_) => "telegram",
            NotificationProvider::Discord(_) => "discord",
            NotificationProvider::Email(_) => "email",
        }
    }
}

/// The provider that type name `name` declares; `None` for an unknown
/// type, which is a configuration error.
pub fn get_provider(name: &str) -> (r: Option<NotificationProvider>)
    ensures
        match r {
            Some(p) => provider_named(name@) == Some(p.kind()),
            None => provider_named(name@).is_none(),
        },
{
    if str_eq(name, "telegram") {
        Some(NotificationProvider::Telegram(Telegram::new()))
    } else if str_eq(name, "discord") {
        Some(NotificationProvider::Discord(Discord::new()))
    } else if str_eq(name, "email") {
        Some(NotificationProvider::Email(Email::new()))
    } else {
        None
    }
}

/// How a status reads in an alert.
pub open spec fn status_word(s: MonitorStatus) -> Seq<char> {
    match s {
        MonitorStatus::Unknown => "unknown"@,
        MonitorStatus::Up => "up"@,
        MonitorStatus::Down => "down"@,
    }
}

fn status_str(s: MonitorStatus) -> (r: &'static str)
    ensures
        r@ == status_word(s),
{
    match s {
        MonitorStatus::Unknown => "unknown",
        MonitorStatus::Up => "up",
        MonitorStatus::Down => "down",
    }
}

/// The alert text: `msg` after a monitor line and before a status line,
/// each written in the provider's markup, when there is a monitor and a
/// heartbeat.
pub open spec fn alert_text(
    kind: ProviderKind,
    msg: Seq<char>,
    monitor: Option<&Monitor>,
    heartbeat: Option<&Heartbeat>,
) -> Seq<char> {
    let (monitor_label, status_label) = if kind == ProviderKind::Discord {
        ("**Monitor:** "@, "\n**Status:** "@)
    } else {
        ("Monitor: "@, "\nStatus: "@)
    };
    let with_monitor = match monitor {
        Some(m) => monitor_label + m.name@ + "\n"@ + msg,
        None => msg,
    };
    match heartbeat {
        Some(h) => with_monitor + status_label + status_word(h.status),
        None => with_monitor,
    }
}

fn alert_string(
    kind: ProviderKind,
    msg: &str,
    monitor: Option<&Monitor>,
    heartbeat: Option<&Heartbeat>,
) -> (r: String)
    ensures
        r@ == alert_text(kind, msg@, monitor, heartbeat),
{
    let discord = match kind {
        ProviderKind::Discord => true,
        _ => false,
    };
    let monitor_label = if discord { "**Monitor:** " } else { "Monitor: " };
    let status_label = if discord { "\n**Status:** " } else { "\nStatus: " };
    let with_monitor = match monitor {
        Some(m) => String::from_str(monitor_label).concat(m.name.as_str()).concat("\n").concat(msg),
        None => String::from_str(msg),
    };
    match heartbeat {
        Some(h) => with_monitor.concat(status_label).concat(status_str(h.status)),
        None => with_monitor,
    }
}

/// The request a provider needs, or that there is nothing to send.
#[derive(Debug)]
pub enum SendPlan {
    /// POST `body` (JSON text) to `url`, then read the answer.
    Post { url: String, body: String },
    /// Nothing to send; the dispatch is done with this report.
    Done(String),
}

/// The error for a config member that is missing.
pub open spec fn missing(r: Result<SendPlan, AppError>, what: Seq<char>) -> bool {
    r matches Err(AppError::BadRequest(m)) && m@ == what
}

/// The request that channel config `config` asks of provider `kind` for
/// message `msg`.
pub open spec fn prepared(
    r: Result<SendPlan, AppError>,
    kind: ProviderKind,
    config: Seq<char>,
    msg: Seq<char>,
    monitor: Option<&Monitor>,
    heartbeat: Option<&Heartbeat>,
) -> bool {
    let text = alert_text(kind, msg, monitor, heartbeat);
    match kind {
        ProviderKind::Telegram => match json_str_member(config, "botToken"@) {
            None => missing(r, "Missing bot token"@),
            Some(token) => match json_str_member(config, "chatID"@) {
                None => missing(r, "Missing chat ID"@),
                Some(chat) => r matches Ok(SendPlan::Post { url, body }) && url@
                    == "https://api.telegram.org/bot"@ + token + "/sendMessage"@ && body@
                    == json_object_text(
                    seq!["chat_id"@, "text"@, "parse_mode"@],
                    seq![chat, text, "HTML"@],
                ),
            },
        },
        ProviderKind::Discord => match json_str_member(config, "webhookURL"@) {
            None => missing(r, "Missing webhook URL"@),
            Some(hook) => r matches Ok(SendPlan::Post { url, body }) && url@ == hook && body@
                == json_object_text(seq!["content"@], seq![text]),
        },
        ProviderKind::Email => if json_str_member(config, "smtpHost"@).is_none() {
            missing(r, "Missing SMTP host"@)
        } else if json_u64_member(config, "smtpPort"@).is_none() {
            missing(r, "Missing SMTP port"@)
        } else if json_str_member(config, "smtpUser"@).is_none() {
            missing(r, "Missing SMTP user"@)
        } else if json_str_member(config, "smtpPass"@).is_none() {
            missing(r, "Missing SMTP password"@)
        } else if json_str_member(config, "toEmail"@).is_none() {
            missing(r, "Missing recipient email"@)
        } else {
            r matches Ok(SendPlan::Done(m)) && m@ == "Email notification sent successfully"@
        },
    }
}

fn bad_request(text: &str) -> (r: AppError)
    ensures
        r matches AppError::BadRequest(m) && m@ == text@,
{
    AppError::BadRequest(String::from_str(text))
}

impl NotificationProvider {
    /// Builds the request this provider makes for `msg` under channel
    /// config `config`; a missing config member is a `BadRequest`.
    pub fn prepare(
        &self,
        config: &str,
        msg: &str,
        monitor: Option<&Monitor>,
        heartbeat: Option<&Heartbeat>,
    ) -> (r: Result<SendPlan, AppError>)
        ensures
            prepared(r, self.kind(), config@, msg@, monitor, heartbeat),
    {
        match self {
            NotificationProvider::Telegram(_) => {
                let token = match str_member(config, "botToken") {
                    Some(t) => t,
                    None => return Err(bad_request("Missing bot token")),
                };
                let chat = match str_member(config, "chatID") {
                    Some(c) => c,
                    None => return Err(bad_request("Missing chat ID")),
                };
                let text = alert_string(ProviderKind::Telegram, msg, monitor, heartbeat);
                let url = String::from_str("https://api.telegram.org/bot").concat(token.as_str()).concat(
                    "/sendMessage",
                );
                let keys = vec!["chat_id", "text", "parse_mode"];
                let values = vec![chat, text, String::from_str("HTML")];
                let body = json_object(&keys, &values);
                proof {
                    assert(str_views(keys@) =~= seq!["chat_id"@, "text"@, "parse_mode"@]);
                    assert(string_views(values@) =~= seq![values@[0]@, values@[1]@, "HTML"@]);
                }
                Ok(SendPlan::Post { url, body })
            },
            NotificationProvider::Discord(_) => {
                let hook = match str_member(config, "webhookURL") {
                    Some(h) => h,
                    None => return Err(bad_request("Missing webhook URL")),
                };
                let text = alert_string(ProviderKind::Discord, msg, monitor, heartbeat);
                let keys = vec!["content"];
                let values = vec![text];
                let body = json_object(&keys, &values);
                proof {
                    assert(str_views(keys@) =~= seq!["content"@]);
                    assert(string_views(values@) =~= seq![values@[0]@]);
                }
                Ok(SendPlan::Post { url: hook, body })
            },
            NotificationProvider::Email(_) => {
                if str_member(config, "smtpHost").is_none() {
                    return Err(bad_request("Missing SMTP host"));
                }
                if u64_member(config, "smtpPort").is_none() {
                    return Err(bad_request("Missing SMTP port"));
                }
                if str_member(config, "smtpUser").is_none() {
                    return Err(bad_request("Missing SMTP user"));
                }
                if str_member(config, "smtpPass").is_none() {
                    return Err(bad_request("Missing SMTP password"));
                }
                if str_member(config, "toEmail").is_none() {
                    return Err(bad_request("Missing recipient email"));
                }
                Ok(SendPlan::Done(String::from_str("Email notification sent successfully")))
            },
        }
    }
}

/// What a provider's answer with status `code` and body `answer` means.
pub open spec fn answered(r: Result<String, AppError>, kind: ProviderKind, code: u16, answer: Seq<char>) -> bool {
    let label = match kind {
        ProviderKind::Telegram => "Telegram"@,
        ProviderKind::Discord => "Discord"@,
        ProviderKind::Email => "Email"@,
    };
    if kind == ProviderKind::Email || (200 <= code < 300) {
        r matches Ok(m) && m@ == label + " notification sent successfully"@
    } else {
        r matches Err(AppError::UpstreamFailure(m)) && m@ == label + " API error: "@ + answer
    }
}

impl NotificationProvider {
    /// Reads the provider's answer to the request `prepare` built: a 2xx
    /// status is a success, any other an upstream failure that quotes the
    /// answer's body.
    pub fn finish(&self, code: u16, answer: &str) -> (r: Result<String, AppError>)
        ensures
            answered(r, self.kind(), code, answer@),
    {
        let label = match self {
            NotificationProvider::Telegram(_) => "Telegram",
            NotificationProvider::Discord(_) => "Discord",
            NotificationProvider::Email(_) => "Email",
        };
        let is_email = match self {
            NotificationProvider::Email(_) => true,
            _ => false,
        };
        if is_email || (200 <= code && code < 300) {
            Ok(String::from_str(label).concat(" notification sent successfully"))
        } else {
            Err(AppError::UpstreamFailure(String::from_str(label).concat(" API error: ").concat(answer)))
        }
    }
}

/// What dispatching `msg` on channel `n` yields: an unknown declared type is
/// a `BadRequest`, otherwise the provider's request.
pub open spec fn dispatched(
    r: Result<SendPlan, AppError>,
    n: Notification,
    msg: Seq<char>,
    monitor: Option<&Monitor>,
    heartbeat: Option<&Heartbeat>,
) -> bool {
    match provider_named(n.type_@) {
        None => missing(r, "Invalid notification type"@),
        Some(kind) => prepared(r, kind, n.config@, msg, monitor, heartbeat),
    }
}

/// The message of a test alert on channel `n`.
pub open spec fn test_text(n: Notification) -> Seq<char> {
    "Test notification for "@ + n.name@
}

pub struct NotificationService {}

impl NotificationService {
    pub fn new() -> Self {
        NotificationService {}
    }

    /// Stores a new channel of `user_id`; an unknown provider type is a
    /// `BadRequest` and stores nothing.
    pub fn create_notification(
        &self,
        store: &mut MonitorStore,
        user_id: i64,
        config: NotificationConfig,
        now: i64,
    ) -> (r: Result<Notification, AppError>)
        requires
            old(store).wf(),
        ensures
            final(store).wf(),
            provider_named(config.type_@).is_none() ==> missing_type(r) && final(store).notifications()
                == old(store).notifications(),
            provider_named(config.type_@).is_some() && old(store).can_add_notification() ==> (r matches Ok(
                n,
            ) && n == configured(n.id, user_id, config, now, now) && final(store).notifications()
                == old(store).notifications().push(n)),
            provider_named(config.type_@).is_some() && !old(store).can_add_notification() ==> (r matches Err(
                AppError::DatabaseError,
            ) && final(store).notifications() == old(store).notifications()),
            final(store).monitors() == old(store).monitors(),
            final(store).links() == old(store).links(),
    {
        if get_provider(config.type_.as_str()).is_none() {
            return Err(AppError::BadRequest(String::from_str("Invalid notification type")));
        }
        Notification::create(store, user_id, config, now)
    }

    /// Channel `id` of `user_id`, if there is one.
    pub fn get_notification(&self, store: &MonitorStore, id: i64, user_id: i64) -> (r: Option<
        Notification,
    >)
        requires
            store.wf(),
        ensures
            r == find_notification(store.notifications(), id, user_id),
    {
        Notification::get_by_id(store, id, user_id)
    }

    /// The channels of `user_id`.
    pub fn get_user_notifications(&self, store: &MonitorStore, user_id: i64) -> (r: Vec<Notification>)
        ensures
            r@.to_multiset() == store.notifications().filter(notification_of(user_id)).to_multiset(),
            by_name(r@),
            forall|q: int| 0 <= q < r@.len() ==> (#[trigger] r@[q]).user_id == user_id,
    {
        Notification::get_by_user(store, user_id)
    }

    /// Replaces channel `id` of `user_id`; an unknown provider type is a
    /// `BadRequest` and changes nothing.
    pub fn update_notification(
        &self,
        store: &mut MonitorStore,
        id: i64,
        user_id: i64,
        config: NotificationConfig,
        now: i64,
    ) -> (r: Result<Notification, AppError>)
        requires
            old(store).wf(),
        ensures
            final(store).wf(),
            provider_named(config.type_@).is_none() ==> missing_type(r) && final(store).notifications()
                == old(store).notifications(),
            provider_named(config.type_@).is_some() ==> match find_notification(
                old(store).notifications(),
                id,
                user_id,
            ) {
                Some(n) => r matches Ok(u) && u == configured(id, user_id, config, n.created_at, now)
                    && final(store).notifications() == old(store).notifications().map_values(
                    |x: Notification|
                        if x.id == id && x.user_id == user_id {
                            configured(id, user_id, config, x.created_at, now)
                        } else {
                            x
                        },
                ),
                None => r matches Err(AppError::NotFound) && final(store).notifications() == old(store).notifications(),
            },
            final(store).monitors() == old(store).monitors(),
            final(store).links() == old(store).links(),
    {
        if get_provider(config.type_.as_str()).is_none() {
            return Err(AppError::BadRequest(String::from_str("Invalid notification type")));
        }
        Notification::update(store, id, user_id, config, now)
    }

    /// Removes channel `id` of `user_id`; whether there was one.
    pub fn delete_notification(&self, store: &mut MonitorStore, id: i64, user_id: i64) -> (r: bool)
        requires
            old(store).wf(),
        ensures
            final(store).wf(),
            r == find_notification(old(store).notifications(), id, user_id).is_some(),
            r ==> exists|i: int|
                0 <= i < old(store).notifications().len() && old(store).notifications()[i].id == id
                    && final(store).notifications() == old(store).notifications().remove(i),
            !r ==> final(store).notifications() == old(store).notifications(),
    {
        Notification::delete(store, id, user_id)
    }

    /// Builds the request that alerts channel `notification` with `msg`.
    pub fn send_notification(
        &self,
        notification: &Notification,
        msg: &str,
        monitor: Option<&Monitor>,
        heartbeat: Option<&Heartbeat>,
    ) -> (r: Result<SendPlan, AppError>)
        ensures
            dispatched(r, *notification, msg@, monitor, heartbeat),
    {
        match get_provider(notification.type_.as_str()) {
            None => Err(bad_request("Invalid notification type")),
            Some(p) => p.prepare(notification.config.as_str(), msg, monitor, heartbeat),
        }
    }

    /// Builds the request of a test alert on `notification`.
    pub fn test_notification(&self, notification: &Notification) -> (r: Result<SendPlan, AppError>)
        ensures
            dispatched(r, *notification, test_text(*notification), None, None),
    {
        let msg = String::from_str("Test notification for ").concat(notification.name.as_str());
        self.send_notification(notification, msg.as_str(), None, None)
    }

    /// The channels subscribed to monitor `monitor_id`.
    pub fn get_monitor_notifications(&self, store: &MonitorStore, monitor_id: i64) -> (r: Vec<
        Notification,
    >)
        ensures
            r@ == store.notifications().filter(linked_to(store.links(), monitor_id)),
    {
        Notification::get_monitor_notifications(store, monitor_id)
    }

    /// Builds one request per channel for a status transition, in the
    /// channels' order; a channel that fails to build does not stop the
    /// others.
    pub fn send_all(
        &self,
        channels: &Vec<Notification>,
        msg: &str,
        monitor: Option<&Monitor>,
        heartbeat: Option<&Heartbeat>,
    ) -> (r: Vec<Result<SendPlan, AppError>>)
        ensures
            r@.len() == channels@.len(),
            forall|i: int|
                0 <= i < channels@.len() ==> dispatched(
                    #[trigger] r@[i],
                    channels@[i],
                    msg@,
                    monitor,
                    heartbeat,
                ),
    {
        let mut out: Vec<Result<SendPlan, AppError>> = Vec::new();
        let mut i: usize = 0;
        while i < channels.len()
            invariant
                i <= channels@.len(),
                out@.len() == i,
                forall|a: int|
                    0 <= a < i ==> dispatched(#[trigger] out@[a], channels@[a], msg@, monitor, heartbeat),
            decreases channels.len() - i,
        {
            let one = self.send_notification(&channels[i], msg, monitor, heartbeat);
            out.push(one);
            i = i + 1;
        }
        out
    }
}

/// The error for a declared type that names no provider.
pub open spec fn missing_type(r: Result<Notification, AppError>) -> bool {
    r matches Err(AppError::BadRequest(m)) && m@ == "Invalid notification type"@
}

} // verus!
