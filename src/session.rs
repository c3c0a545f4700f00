//! The session handler: decodes inbound frames into requests and drives one
//! session through `Connecting -> Active -> Closing -> Closed`.
use vstd::prelude::*;
use vstd::string::StringExecFns;
use crate::message::WebSocketMessage;
use crate::text::{i64_member, json_i64_member, json_str_member, str_eq, str_member};

verus! {

/// What a client may ask for: a full list, or one entity by id.
#[derive(Clone, Copy, Debug, PartialEq, Eq, Structural)]
pub enum Request {
    SystemInfo,
    MonitorList,
    Monitor(i64),
    HeartbeatList(i64),
    ChartData(i64),
    NotificationList,
    Notification(i64),
    StatusPageList,
    StatusPage(i64),
    MaintenanceList,
    Maintenance(i64),
    ApiKeyList,
    ApiKey(i64),
    DockerHostList,
    DockerHost(i64),
    RemoteBrowserList,
    RemoteBrowser(i64),
}

/// The request an action names when it needs no id.
pub open spec fn plain_request(a: Seq<char>) -> Option<Request> {
    if a == "get_monitor_list"@ {
        Some(Request::MonitorList)
    } else if a == "get_notification_list"@ {
        Some(Request::NotificationList)
    } else if a == "get_status_page_list"@ {
        Some(Request::StatusPageList)
    } else if a == "get_maintenance_list"@ {
        Some(Request::MaintenanceList)
    } else if a == "get_api_key_list"@ {
        Some(Request::ApiKeyList)
    } else if a == "get_docker_host_list"@ {
        Some(Request::DockerHostList)
    } else if a == "get_remote_browser_list"@ {
        Some(Request::RemoteBrowserList)
    } else if a == "get_system_info"@ {
        Some(Request::SystemInfo)
    } else {
        None
    }
}

/// The name of the id member that an action needs, if it needs one.
pub open spec fn id_member(a: Seq<char>) -> Option<Seq<char>> {
    if a == "get_monitor"@ || a == "get_heartbeat_list"@ || a == "get_chart_data"@ {
        Some("monitor_id"@)
    } else if a == "get_notification"@ {
        Some("notification_id"@)
    } else if a == "get_status_page"@ {
        Some("status_page_id"@)
    } else if a == "get_maintenance"@ {
        Some("maintenance_id"@)
    } else if a == "get_api_key"@ {
        Some("api_key_id"@)
    } else if a == "get_docker_host"@ {
        Some("docker_host_id"@)
    } else if a == "get_remote_browser"@ {
        Some("browser_id"@)
    } else {
        None
    }
}

/// The request an id action names for `id`.
pub open spec fn id_request(a: Seq<char>, id: i64) -> Request {
    if a == "get_monitor"@ {
        Request::Monitor(id)
    } else if a == "get_heartbeat_list"@ {
        Request::HeartbeatList(id)
    } else if a == "get_chart_data"@ {
        Request::ChartData(id)
    } else if a == "get_notification"@ {
        Request::Notification(id)
    } else if a == "get_status_page"@ {
        Request::StatusPage(id)
    } else if a == "get_maintenance"@ {
        Request::Maintenance(id)
    } else if a == "get_api_key"@ {
        Request::ApiKey(id)
    } else if a == "get_docker_host"@ {
        Request::DockerHost(id)
    } else {
        Request::RemoteBrowser(id)
    }
}

/// The text of the error that answers an unknown action.
pub open spec fn unknown_action_text(a: Seq<char>) -> Seq<char> {
    "Unknown action: "@ + a
}

/// What a session does next.
#[derive(Debug)]
pub enum SessionAction {
    /// Serve these requests in this order.
    Snapshot(Vec<Request>),
    /// Serve one request; its answer goes to the owner's sessions.
    Fetch(Request),
    /// Write this message to this session only.
    Reply(WebSocketMessage),
    /// Remove this session from the registry.
    Deregister,
    Nothing,
}

/// The answer to action `a` with id member `id`: an unknown action is
/// answered on the session with an error; an id action without its id is
/// ignored.
pub open spec fn routed(r: SessionAction, a: Seq<char>, id: Option<i64>) -> bool {
    match plain_request(a) {
        Some(q) => r == SessionAction::Fetch(q),
        None => match id_member(a) {
            Some(_) => match id {
                Some(i) => r == SessionAction::Fetch(id_request(a, i)),
                None => r is Nothing,
            },
            None => match r {
                SessionAction::Reply(WebSocketMessage::Error(m)) => m@ == unknown_action_text(a),
                _ => false,
            },
        },
    }
}

/// The text of the error that answers a frame with no string `action`.
pub open spec fn invalid_frame_text() -> Seq<char> {
    "Invalid message"@
}

/// The answer to the inbound frame `text`. A frame that is not a JSON
/// object with a string `action` member is answered on the session with an
/// error.
pub open spec fn answers_frame(r: SessionAction, text: Seq<char>) -> bool {
    match json_str_member(text, "action"@) {
        None => match r {
            SessionAction::Reply(WebSocketMessage::Error(m)) => m@ == invalid_frame_text(),
            _ => false,
        },
        Some(a) => match id_member(a) {
            Some(k) => routed(r, a, json_i64_member(text, k)),
            None => routed(r, a, None),
        },
    }
}

/// The requests that a fresh session is served, in order.
pub open spec fn snapshot_order() -> Seq<Request> {
    seq![
        Request::SystemInfo,
        Request::MonitorList,
        Request::NotificationList,
        Request::StatusPageList,
        Request::MaintenanceList,
        Request::ApiKeyList,
        Request::DockerHostList,
        Request::RemoteBrowserList,
    ]
}

fn plain_request_of(a: &str) -> (r: Option<Request>)
    ensures
        r == plain_request(a@),
{
    if str_eq(a, "get_monitor_list") {
        Some(Request::MonitorList)
    } else if str_eq(a, "get_notification_list") {
        Some(Request::NotificationList)
    } else if str_eq(a, "get_status_page_list") {
        Some(Request::StatusPageList)
    } else if str_eq(a, "get_maintenance_list") {
        Some(Request::MaintenanceList)
    } else if str_eq(a, "get_api_key_list") {
        Some(Request::ApiKeyList)
    } else if str_eq(a, "get_docker_host_list") {
        Some(Request::DockerHostList)
    } else if str_eq(a, "get_remote_browser_list") {
        Some(Request::RemoteBrowserList)
    } else if str_eq(a, "get_system_info") {
        Some(Request::SystemInfo)
    } else {
        None
    }
}

fn id_member_of(a: &str) -> (r: Option<&'static str>)
    ensures
        match r {
            Some(k) => id_member(a@) == Some(k@),
            None => id_member(a@).is_none(),
        },
{
    if str_eq(a, "get_monitor") || str_eq(a, "get_heartbeat_list") || str_eq(a, "get_chart_data") {
        Some("monitor_id")
    } else if str_eq(a, "get_notification") {
        Some("notification_id")
    } else if str_eq(a, "get_status_page") {
        Some("status_page_id")
    } else if str_eq(a, "get_maintenance") {
        Some("maintenance_id")
    } else if str_eq(a, "get_api_key") {
        Some("api_key_id")
    } else if str_eq(a, "get_docker_host") {
        Some("docker_host_id")
    } else if str_eq(a, "get_remote_browser") {
        Some("browser_id")
    } else {
        None
    }
}

fn id_request_of(a: &str, id: i64) -> (r: Request)
    ensures
        r == id_request(a@, id),
{
    if str_eq(a, "get_monitor") {
        Request::Monitor(id)
    } else if str_eq(a, "get_heartbeat_list") {
        Request::HeartbeatList(id)
    } else if str_eq(a, "get_chart_data") {
        Request::ChartData(id)
    } else if str_eq(a, "get_notification") {
        Request::Notification(id)
    } else if str_eq(a, "get_status_page") {
        Request::StatusPage(id)
    } else if str_eq(a, "get_maintenance") {
        Request::Maintenance(id)
    } else if str_eq(a, "get_api_key") {
        Request::ApiKey(id)
    } else if str_eq(a, "get_docker_host") {
        Request::DockerHost(id)
    } else {
        Request::RemoteBrowser(id)
    }
}

/// Decides what action `action` asks for, given the id member the frame
/// held under the name that `id_member` gives.
pub fn route_action(action: &str, id: Option<i64>) -> (r: SessionAction)
    ensures
        routed(r, action@, id),
{
    match plain_request_of(action) {
        Some(q) => SessionAction::Fetch(q),
        None => match id_member_of(action) {
            Some(_) => match id {
                Some(i) => SessionAction::Fetch(id_request_of(action, i)),
                None => SessionAction::Nothing,
            },
            None => {
                let text = String::from_str("Unknown action: ").concat(action);
                SessionAction::Reply(WebSocketMessage::Error(text))
            },
        },
    }
}

/// Decides what the inbound frame `text` asks for.
pub fn handle_message(text: &str) -> (r: SessionAction)
    ensures
        answers_frame(r, text@),
{
    match str_member(text, "action") {
        None => SessionAction::Reply(WebSocketMessage::Error(String::from_str("Invalid message"))),
        Some(action) => {
            let a = action.as_str();
            match id_member_of(a) {
                Some(k) => route_action(a, i64_member(text, k)),
                None => route_action(a, None),
            }
        },
    }
}

/// The requests a fresh session is served, in order: server info, then
/// each list.
pub fn send_initial_data() -> (r: Vec<Request>)
    ensures
        r@ == snapshot_order(),
{
    let r = vec![
        Request::SystemInfo,
        Request::MonitorList,
        Request::NotificationList,
        Request::StatusPageList,
        Request::MaintenanceList,
        Request::ApiKeyList,
        Request::DockerHostList,
        Request::RemoteBrowserList,
    ];
    assert(r@ == snapshot_order());
    r
}

/// Where a session stands.
#[derive(Clone, Copy, Debug, PartialEq, Eq, Structural)]
pub enum SessionState {
    Connecting,
    Active,
    Closing,
    Closed,
}

/// What happens to a session.
#[derive(Debug)]
pub enum SessionEvent {
    /// The handshake completed and the session is registered.
    Upgraded,
    /// A text frame arrived.
    Text(String),
    /// The inbound stream ended or failed.
    ReadEnded,
    /// The registry has dropped the session.
    Removed,
}

/// The state a session moves to on an event.
pub open spec fn next_state(s: SessionState, e: SessionEvent) -> SessionState {
    match (s, e) {
        (SessionState::Connecting, SessionEvent::Upgraded) => SessionState::Active,
        (SessionState::Connecting, SessionEvent::ReadEnded) => SessionState::Closing,
        (SessionState::Active, SessionEvent::ReadEnded) => SessionState::Closing,
        (SessionState::Closing, SessionEvent::Removed) => SessionState::Closed,
        _ => s,
    }
}

/// The action a session takes on an event: the snapshot on entering
/// `Active`, one answer per frame while `Active`, a deregistration on
/// entering `Closing`, and nothing else.
pub open spec fn acts_on(r: SessionAction, s: SessionState, e: SessionEvent) -> bool {
    match (s, e) {
        (SessionState::Connecting, SessionEvent::Upgraded) => match r {
            SessionAction::Snapshot(v) => v@ == snapshot_order(),
            _ => false,
        },
        (SessionState::Active, SessionEvent::Text(t)) => answers_frame(r, t@),
        (SessionState::Connecting, SessionEvent::ReadEnded) => r is Deregister,
        (SessionState::Active, SessionEvent::ReadEnded) => r is Deregister,
        _ => r is Nothing,
    }
}

/// One session of one owner.
pub struct WebSocketConnection {
    pub user_id: i64,
    pub client_id: i64,
    pub state: SessionState,
}

impl WebSocketConnection {
    /// A session that has not completed its handshake.
    pub fn new(user_id: i64, client_id: i64) -> (r: Self)
        ensures
            r.user_id == user_id,
            r.client_id == client_id,
            r.state == SessionState::Connecting,
    {
        WebSocketConnection { user_id, client_id, state: SessionState::Connecting }
    }

    /// Moves the session on `event` and says what to do.
    pub fn handle_event(&mut self, event: SessionEvent) -> (r: SessionAction)
        ensures
            final(self).user_id == old(self).user_id,
            final(self).client_id == old(self).client_id,
            final(self).state == next_state(old(self).state, event),
            acts_on(r, old(self).state, event),
    {
        match (self.state, event) {
            (SessionState::Connecting, SessionEvent::Upgraded) => {
                self.state = SessionState::Active;
                SessionAction::Snapshot(send_initial_data())
            },
            (SessionState::Active, SessionEvent::Text(t)) => handle_message(t.as_str()),
            (SessionState::Connecting, SessionEvent::ReadEnded) => {
                self.state = SessionState::Closing;
                SessionAction::Deregister
            },
            (SessionState::Active, SessionEvent::ReadEnded) => {
                self.state = SessionState::Closing;
                SessionAction::Deregister
            },
            (SessionState::Closing, SessionEvent::Removed) => {
                self.state = SessionState::Closed;
                SessionAction::Nothing
            },
            _ => SessionAction::Nothing,
        }
    }
}

/// A session answers frames only while `Active`, and it becomes `Active`
/// only from `Connecting`, on the event that serves it the snapshot of
/// server info and the seven lists in their fixed order. No frame is
/// answered after the session leaves `Active`.
pub proof fn lemma_snapshot_before_frames(s: SessionState, e: SessionEvent, r: SessionAction)
    requires
        acts_on(r, s, e),
    ensures
        next_state(s, e) == SessionState::Active ==> s == SessionState::Active || (s
            == SessionState::Connecting && e is Upgraded),
        s == SessionState::Connecting && e is Upgraded ==> (r matches SessionAction::Snapshot(v)
            && v@ == snapshot_order() && v@.len() == 8),
        e is Text && s != SessionState::Active ==> r is Nothing,
        s == SessionState::Closing || s == SessionState::Closed ==> r is Nothing,
{
}

} // verus!
