//! The records that the core reads from storage and sends to sessions.
//! Every persistent record carries the id of the owner it belongs to;
//! timestamps are seconds since the Unix epoch.
use vstd::prelude::*;
use vstd::string::StringExecFns;

verus! {

/// The current status of a monitor.
#[derive(Clone, Copy, Debug, PartialEq, Eq, Structural)]
pub enum MonitorStatus {
    Unknown,
    Up,
    Down,
}

/// A monitored target.
#[derive(Debug)]
pub struct Monitor {
    pub id: i64,
    pub user_id: i64,
    pub name: String,
    pub url: String,
    pub type_: String,
    pub interval: i32,
    pub timeout: i32,
    pub status: MonitorStatus,
    pub last_check: Option<i64>,
    pub created_at: i64,
    pub updated_at: i64,
}

/// The fields a client gives to create a monitor.
#[derive(Debug)]
pub struct CreateMonitor {
    pub name: String,
    pub url: String,
    pub type_: String,
    pub interval: Option<i32>,
    pub timeout: Option<i32>,
}

/// The fields a client gives to change a monitor; `None` keeps the field.
#[derive(Debug)]
pub struct UpdateMonitor {
    pub name: Option<String>,
    pub url: Option<String>,
    pub type_: Option<String>,
    pub interval: Option<i32>,
    pub timeout: Option<i32>,
}

/// One immutable probe result.
#[derive(Debug)]
pub struct Heartbeat {
    pub monitor_id: i64,
    pub status: MonitorStatus,
    pub ping: Option<i32>,
    pub message: Option<String>,
    pub time: i64,
}

/// An alert channel. `type_` names the provider; `config` is the provider
/// configuration as JSON text.
#[derive(Debug)]
pub struct Notification {
    pub id: i64,
    pub user_id: i64,
    pub name: String,
    pub type_: String,
    pub config: String,
    pub is_default: bool,
    pub created_at: i64,
    pub updated_at: i64,
}

/// The fields a client gives to create or replace an alert channel.
#[derive(Debug)]
pub struct NotificationConfig {
    pub name: String,
    pub type_: String,
    pub is_default: bool,
    pub provider_config: String,
}

/// A public status page; `config` is JSON text.
#[derive(Debug)]
pub struct StatusPage {
    pub id: i64,
    pub user_id: i64,
    pub name: String,
    pub slug: String,
    pub config: String,
}

/// A maintenance window.
#[derive(Debug)]
pub struct Maintenance {
    pub id: i64,
    pub user_id: i64,
    pub name: String,
    pub start_time: i64,
    pub end_time: i64,
    pub status: String,
}

/// An API key.
#[derive(Debug)]
pub struct ApiKey {
    pub id: i64,
    pub user_id: i64,
    pub name: String,
    pub key: String,
    pub created_at: i64,
}

/// A docker host.
#[derive(Debug)]
pub struct DockerHost {
    pub id: i64,
    pub user_id: i64,
    pub name: String,
    pub url: String,
    pub status: String,
}

/// A remote browser.
#[derive(Debug)]
pub struct RemoteBrowser {
    pub id: i64,
    pub user_id: i64,
    pub name: String,
    pub url: String,
    pub status: String,
}

/// One point of a monitor's latency chart.
#[derive(Clone, Copy, Debug, PartialEq, Eq, Structural)]
pub struct ChartPoint {
    pub time: i64,
    pub value: i64,
}

/// An account.
#[derive(Debug)]
pub struct User {
    pub id: i64,
    pub username: String,
    pub password_hash: String,
    pub email: Option<String>,
    pub created_at: i64,
    pub updated_at: i64,
}

/// The fields a client gives to register.
#[derive(Debug)]
pub struct CreateUser {
    pub username: String,
    pub password: String,
    pub email: Option<String>,
}

/// The fields a client gives to log in.
#[derive(Debug)]
pub struct LoginUser {
    pub username: String,
    pub password: String,
}

/// What a session credential states: the account id, its name and the
/// expiry time.
#[derive(Debug)]
pub struct Claims {
    pub sub: i64,
    pub username: String,
    pub exp: i64,
}

/// The error taxonomy of the core.
#[derive(Debug)]
pub enum AppError {
    /// The storage collaborator failed or ran out of ids.
    DatabaseError,
    /// A credential could not be issued or read.
    JwtError,
    UsernameTaken,
    InvalidCredentials,
    Unauthorized,
    /// The entity is absent or belongs to another owner.
    NotFound,
    /// Malformed input, an unsupported probe kind or a malformed config.
    BadRequest(String),
    /// A probe target or an alert provider failed.
    UpstreamFailure(String),
    /// A write to a session failed.
    TransportFailure,
}

/// An equal copy of an optional string.
pub fn copy_opt_string(s: &Option<String>) -> (r: Option<String>)
    ensures
        r == *s,
{
    match s {
        Some(t) => Some(t.clone()),
        None => None,
    }
}

impl Monitor {
    /// An equal copy.
    pub fn duplicate(&self) -> (r: Monitor)
        ensures
            r == *self,
    {
        Monitor {
            id: self.id,
            user_id: self.user_id,
            name: self.name.clone(),
            url: self.url.clone(),
            type_: self.type_.clone(),
            interval: self.interval,
            timeout: self.timeout,
            status: self.status,
            last_check: self.last_check,
            created_at: self.created_at,
            updated_at: self.updated_at,
        }
    }
}

impl Heartbeat {
    /// An equal copy.
    pub fn duplicate(&self) -> (r: Heartbeat)
        ensures
            r == *self,
    {
        Heartbeat {
            monitor_id: self.monitor_id,
            status: self.status,
            ping: self.ping,
            message: copy_opt_string(&self.message),
            time: self.time,
        }
    }
}

impl User {
    /// An equal copy.
    pub fn duplicate(&self) -> (r: User)
        ensures
            r == *self,
    {
        User {
            id: self.id,
            username: self.username.clone(),
            password_hash: self.password_hash.clone(),
            email: copy_opt_string(&self.email),
            created_at: self.created_at,
            updated_at: self.updated_at,
        }
    }
}

impl Notification {
    /// An equal copy.
    pub fn duplicate(&self) -> (r: Notification)
        ensures
            r == *self,
    {
        Notification {
            id: self.id,
            user_id: self.user_id,
            name: self.name.clone(),
            type_: self.type_.clone(),
            config: self.config.clone(),
            is_default: self.is_default,
            created_at: self.created_at,
            updated_at: self.updated_at,
        }
    }
}

/// The text an error shows to the request or session that caused it.
pub open spec fn error_text(e: AppError) -> Seq<char> {
    match e {
        AppError::DatabaseError => "Internal server error"@,
        AppError::JwtError => "Invalid token"@,
        AppError::UsernameTaken => "Username already taken"@,
        AppError::InvalidCredentials => "Invalid credentials"@,
        AppError::Unauthorized => "Unauthorized"@,
        AppError::NotFound => "Resource not found"@,
        AppError::BadRequest(m) => m@,
        AppError::UpstreamFailure(m) => m@,
        AppError::TransportFailure => "Session write failed"@,
    }
}

/// The HTTP status an error answers a request with.
pub open spec fn error_status(e: AppError) -> u16 {
    match e {
        AppError::DatabaseError => 500,
        AppError::JwtError => 401,
        AppError::UsernameTaken => 400,
        AppError::InvalidCredentials => 401,
        AppError::Unauthorized => 401,
        AppError::NotFound => 404,
        AppError::BadRequest(_) => 400,
        AppError::UpstreamFailure(_) => 502,
        AppError::TransportFailure => 500,
    }
}

impl AppError {
    /// The text this error shows.
    pub fn message(&self) -> (r: String)
        ensures
            r@ == error_text(*self),
    {
        match self {
            AppError::DatabaseError => String::from_str("Internal server error"),
            AppError::JwtError => String::from_str("Invalid token"),
            AppError::UsernameTaken => String::from_str("Username already taken"),
            AppError::InvalidCredentials => String::from_str("Invalid credentials"),
            AppError::Unauthorized => String::from_str("Unauthorized"),
            AppError::NotFound => String::from_str("Resource not found"),
            AppError::BadRequest(m) => m.clone(),
            AppError::UpstreamFailure(m) => m.clone(),
            AppError::TransportFailure => String::from_str("Session write failed"),
        }
    }

    /// The HTTP status this error answers with.
    pub fn status_code(&self) -> (r: u16)
        ensures
            r == error_status(*self),
    {
        match self {
            AppError::DatabaseError => 500,
            AppError::JwtError => 401,
            AppError::UsernameTaken => 400,
            AppError::InvalidCredentials => 401,
            AppError::Unauthorized => 401,
            AppError::NotFound => 404,
            AppError::BadRequest(_) => 400,
            AppError::UpstreamFailure(_) => 502,
            AppError::TransportFailure => 500,
        }
    }
}

} // verus!
