//! The event router: turns "this changed" into a broadcast to the owner's
//! sessions. Each handler takes what the storage collaborator returned for
//! the owner and sends it only when it is there and belongs to that owner:
//! a missing or foreign record is skipped, never sent.
use vstd::prelude::*;
use crate::message::WebSocketMessage;
use crate::model::{
    ApiKey, ChartPoint, DockerHost, Heartbeat, Maintenance, Monitor, Notification, RemoteBrowser,
    StatusPage,
};
use crate::registry::{owned_by, Broadcast, WebSocketClient, WebSocketManager};
use crate::session::Request;
use crate::table::{find_row, row_of, EntityTables, Owned};
use crate::store::{
    by_name, beat_of, find_monitor, find_notification, monitor_of, notification_of, MonitorStore,
};

verus! {

/// `b` carries `msg` to exactly the sessions of `user_id`.
pub open spec fn sent_to_owner(
    b: Broadcast,
    sessions: Seq<WebSocketClient>,
    user_id: i64,
    msg: WebSocketMessage,
) -> bool {
    b.message == msg && b.targets@ == sessions.filter(owned_by(user_id))
}

/// The answer to a fetch of record `id` for `user_id`: a broadcast of
/// `msg(x)` when the fetch found `x` and `x` is that record of that owner,
/// and nothing otherwise.
pub open spec fn routes_one<T: Owned>(
    r: Option<Broadcast>,
    fetched: Option<T>,
    id: i64,
    user_id: i64,
    sessions: Seq<WebSocketClient>,
    msg: spec_fn(T) -> WebSocketMessage,
) -> bool {
    match fetched {
        Some(x) => if x.key() == id && x.owner() == user_id {
            r matches Some(b) && sent_to_owner(b, sessions, user_id, msg(x))
        } else {
            r is None
        },
        None => r is None,
    }
}

/// The answer to a fetch of the list of `user_id`: a broadcast of
/// `msg(v)` when the fetch returned `v` and all of `v` belongs to that
/// owner, and nothing otherwise.
pub open spec fn routes_list<T: Owned>(
    r: Option<Broadcast>,
    fetched: Option<Vec<T>>,
    user_id: i64,
    sessions: Seq<WebSocketClient>,
    msg: spec_fn(Vec<T>) -> WebSocketMessage,
) -> bool {
    match fetched {
        Some(v) => if forall|i: int| 0 <= i < v@.len() ==> (#[trigger] v@[i]).owner() == user_id {
            r matches Some(b) && sent_to_owner(b, sessions, user_id, msg(v))
        } else {
            r is None
        },
        None => r is None,
    }
}

fn owns_all<T: Owned>(items: &Vec<T>, user_id: i64) -> (r: bool)
    ensures
        r == forall|i: int| 0 <= i < items@.len() ==> (#[trigger] items@[i]).owner() == user_id,
{
    let mut i: usize = 0;
    while i < items.len()
        invariant
            i <= items@.len(),
            forall|a: int| 0 <= a < i ==> (#[trigger] items@[a]).owner() == user_id,
        decreases items.len() - i,
    {
        if items[i].owner_id() != user_id {
            return false;
        }
        i = i + 1;
    }
    true
}

fn is_record_of<T: Owned>(x: &T, id: i64, user_id: i64) -> (r: bool)
    ensures
        r == (x.key() == id && x.owner() == user_id),
{
    x.record_id() == id && x.owner_id() == user_id
}

/// How long the server has run at `now`, in seconds, never negative.
pub open spec fn uptime(start_time: i64, now: i64) -> i64 {
    if now <= start_time {
        0
    } else if now - start_time > i64::MAX {
        i64::MAX
    } else {
        (now - start_time) as i64
    }
}

/// The chart of a monitor's history: one point per heartbeat that has a
/// latency, at the heartbeat's time.
pub open spec fn chart_points(hs: Seq<Heartbeat>) -> Seq<ChartPoint>
    decreases hs.len(),
{
    if hs.len() == 0 {
        Seq::empty()
    } else {
        let init = chart_points(hs.drop_last());
        match hs.last().ping {
            Some(p) => init.push(ChartPoint { time: hs.last().time, value: p as i64 }),
            None => init,
        }
    }
}

fn chart_of(hs: &Vec<Heartbeat>) -> (r: Vec<ChartPoint>)
    ensures
        r@ == chart_points(hs@),
{
    let mut out: Vec<ChartPoint> = Vec::new();
    let mut i: usize = 0;
    while i < hs.len()
        invariant
            i <= hs@.len(),
            out@ == chart_points(hs@.take(i as int)),
        decreases hs.len() - i,
    {
        proof {
            assert(hs@.take(i + 1).drop_last() == hs@.take(i as int));
        }
        match hs[i].ping {
            Some(p) => out.push(ChartPoint { time: hs[i].time, value: p as i64 }),
            None => {},
        }
        i = i + 1;
    }
    proof {
        assert(hs@.take(i as int) == hs@);
    }
    out
}

/// `r` sends the list `items` to exactly the sessions of `user_id`.
pub open spec fn sends_list(
    r: Option<Broadcast>,
    sessions: Seq<WebSocketClient>,
    user_id: i64,
    ok: spec_fn(WebSocketMessage) -> bool,
) -> bool {
    r matches Some(b) && ok(b.message) && b.targets@ == sessions.filter(owned_by(user_id))
}

/// What serving request `q` of `user_id` from `store` and `tables` sends:
/// the owner's current state of what `q` names, to the owner's sessions
/// only; nothing when `q` names one record that the owner does not have.
pub open spec fn served(
    r: Option<Broadcast>,
    q: Request,
    store: MonitorStore,
    tables: EntityTables,
    sessions: Seq<WebSocketClient>,
    user_id: i64,
    version: String,
    start_time: i64,
    now: i64,
) -> bool {
    match q {
        Request::SystemInfo => r matches Some(b) && b.targets@ == sessions.filter(owned_by(user_id))
            && b.message == (WebSocketMessage::Info {
            version,
            uptime: uptime(start_time, now),
            server_time: now,
        }),
        Request::MonitorList => sends_list(
            r,
            sessions,
            user_id,
            |m: WebSocketMessage|
                m matches WebSocketMessage::MonitorList(v) && v@ == store.monitors().filter(
                    monitor_of(user_id),
                ).reverse(),
        ),
        Request::Monitor(id) => routes_one(
            r,
            find_monitor(store.monitors(), id, user_id),
            id,
            user_id,
            sessions,
            |x: Monitor| WebSocketMessage::MonitorUpdate(x),
        ),
        Request::HeartbeatList(id) => if find_monitor(store.monitors(), id, user_id).is_some() {
            sends_list(
                r,
                sessions,
                user_id,
                |m: WebSocketMessage|
                    m matches WebSocketMessage::HeartbeatList { monitor_id, heartbeats }
                        && monitor_id == id && heartbeats@ == store.heartbeats().filter(beat_of(id)),
            )
        } else {
            r is None
        },
        Request::ChartData(id) => if find_monitor(store.monitors(), id, user_id).is_some() {
            sends_list(
                r,
                sessions,
                user_id,
                |m: WebSocketMessage|
                    m matches WebSocketMessage::ChartData { monitor_id, points } && monitor_id == id
                        && points@ == chart_points(store.heartbeats().filter(beat_of(id))),
            )
        } else {
            r is None
        },
        Request::NotificationList => sends_list(
            r,
            sessions,
            user_id,
            |m: WebSocketMessage|
                m matches WebSocketMessage::NotificationList(v) && v@.to_multiset()
                    == store.notifications().filter(notification_of(user_id)).to_multiset()
                    && by_name(v@),
        ),
        Request::Notification(id) => routes_one(
            r,
            find_notification(store.notifications(), id, user_id),
            id,
            user_id,
            sessions,
            |x: Notification| WebSocketMessage::NotificationUpdate(x),
        ),
        Request::StatusPageList => sends_list(
            r,
            sessions,
            user_id,
            |m: WebSocketMessage|
                m matches WebSocketMessage::StatusPageList(v) && v@ == tables.status_pages.rows().filter(
                    row_of(user_id),
                ),
        ),
        Request::StatusPage(id) => routes_one(
            r,
            find_row(tables.status_pages.rows(), id, user_id),
            id,
            user_id,
            sessions,
            |x: StatusPage| WebSocketMessage::StatusPageUpdate(x),
        ),
        Request::MaintenanceList => sends_list(
            r,
            sessions,
            user_id,
            |m: WebSocketMessage|
                m matches WebSocketMessage::MaintenanceList(v) && v@ == tables.maintenances.rows().filter(
                    row_of(user_id),
                ),
        ),
        Request::Maintenance(id) => routes_one(
            r,
            find_row(tables.maintenances.rows(), id, user_id),
            id,
            user_id,
            sessions,
            |x: Maintenance| WebSocketMessage::MaintenanceUpdate(x),
        ),
        Request::ApiKeyList => sends_list(
            r,
            sessions,
            user_id,
            |m: WebSocketMessage|
                m matches WebSocketMessage::ApiKeyList(v) && v@ == tables.api_keys.rows().filter(
                    row_of(user_id),
                ),
        ),
        Request::ApiKey(id) => routes_one(
            r,
            find_row(tables.api_keys.rows(), id, user_id),
            id,
            user_id,
            sessions,
            |x: ApiKey| WebSocketMessage::ApiKeyUpdate(x),
        ),
        Request::DockerHostList => sends_list(
            r,
            sessions,
            user_id,
            |m: WebSocketMessage|
                m matches WebSocketMessage::DockerHostList(v) && v@ == tables.docker_hosts.rows().filter(
                    row_of(user_id),
                ),
        ),
        Request::DockerHost(id) => routes_one(
            r,
            find_row(tables.docker_hosts.rows(), id, user_id),
            id,
            user_id,
            sessions,
            |x: DockerHost| WebSocketMessage::DockerHostUpdate(x),
        ),
        Request::RemoteBrowserList => sends_list(
            r,
            sessions,
            user_id,
            |m: WebSocketMessage|
                m matches WebSocketMessage::RemoteBrowserList(v) && v@ == tables.remote_browsers.rows().filter(
                    row_of(user_id),
                ),
        ),
        Request::RemoteBrowser(id) => routes_one(
            r,
            find_row(tables.remote_browsers.rows(), id, user_id),
            id,
            user_id,
            sessions,
            |x: RemoteBrowser| WebSocketMessage::RemoteBrowserUpdate(x),
        ),
    }
}

pub struct WebSocketHandlers {
    pub version: String,
    pub start_time: i64,
}

impl WebSocketHandlers {
    pub fn new(version: String, start_time: i64) -> (r: Self)
        ensures
            r.version == version,
            r.start_time == start_time,
    {
        WebSocketHandlers { version, start_time }
    }

    /// Sends the current state of monitor `monitor_id` to the
    /// sessions of `user_id`, when the fetch found it for that owner.
    pub fn handle_monitor_update(
        &self,
        ws: &WebSocketManager,
        monitor_id: i64,
        user_id: i64,
        fetched: Option<Monitor>,
    ) -> (r: Option<Broadcast>)
        ensures
            routes_one(r, fetched, monitor_id, user_id, ws@, |x: Monitor| WebSocketMessage::MonitorUpdate(x)),
    {
        match fetched {
            Some(x) => if is_record_of(&x, monitor_id, user_id) {
                Some(ws.broadcast_to_user(user_id, WebSocketMessage::MonitorUpdate(x)))
            } else {
                None
            },
            None => None,
        }
    }

    /// Tells the sessions of `user_id` that monitor `monitor_id` is gone.
    pub fn handle_monitor_delete(&self, ws: &WebSocketManager, monitor_id: i64, user_id: i64) -> (r:
        Broadcast)
        ensures
            sent_to_owner(r, ws@, user_id, WebSocketMessage::MonitorDelete(monitor_id)),
    {
        ws.broadcast_to_user(user_id, WebSocketMessage::MonitorDelete(monitor_id))
    }

    /// Sends the full monitor list of `user_id` to that owner's sessions,
    /// when the fetch succeeded and returned only that owner's records.
    pub fn handle_monitor_list(
        &self,
        ws: &WebSocketManager,
        user_id: i64,
        fetched: Option<Vec<Monitor>>,
    ) -> (r: Option<Broadcast>)
        ensures
            routes_list(r, fetched, user_id, ws@, |v: Vec<Monitor>| WebSocketMessage::MonitorList(v)),
    {
        match fetched {
            Some(v) => if owns_all(&v, user_id) {
                Some(ws.broadcast_to_user(user_id, WebSocketMessage::MonitorList(v)))
            } else {
                None
            },
            None => None,
        }
    }

    /// Sends the current state of notification `notification_id` to the
    /// sessions of `user_id`, when the fetch found it for that owner.
    pub fn handle_notification_update(
        &self,
        ws: &WebSocketManager,
        notification_id: i64,
        user_id: i64,
        fetched: Option<Notification>,
    ) -> (r: Option<Broadcast>)
        ensures
            routes_one(r, fetched, notification_id, user_id, ws@, |x: Notification| WebSocketMessage::NotificationUpdate(x)),
    {
        match fetched {
            Some(x) => if is_record_of(&x, notification_id, user_id) {
                Some(ws.broadcast_to_user(user_id, WebSocketMessage::NotificationUpdate(x)))
            } else {
                None
            },
            None => None,
        }
    }

    /// Tells the sessions of `user_id` that notification `notification_id` is gone.
    pub fn handle_notification_delete(&self, ws: &WebSocketManager, notification_id: i64, user_id: i64) -> (r:
        Broadcast)
        ensures
            sent_to_owner(r, ws@, user_id, WebSocketMessage::NotificationDelete(notification_id)),
    {
        ws.broadcast_to_user(user_id, WebSocketMessage::NotificationDelete(notification_id))
    }

    /// Sends the full notification list of `user_id` to that owner's sessions,
    /// when the fetch succeeded and returned only that owner's records.
    pub fn handle_notification_list(
        &self,
        ws: &WebSocketManager,
        user_id: i64,
        fetched: Option<Vec<Notification>>,
    ) -> (r: Option<Broadcast>)
        ensures
            routes_list(r, fetched, user_id, ws@, |v: Vec<Notification>| WebSocketMessage::NotificationList(v)),
    {
        match fetched {
            Some(v) => if owns_all(&v, user_id) {
                Some(ws.broadcast_to_user(user_id, WebSocketMessage::NotificationList(v)))
            } else {
                None
            },
            None => None,
        }
    }

    /// Sends the current state of status page `status_page_id` to the
    /// sessions of `user_id`, when the fetch found it for that owner.
    pub fn handle_status_page_update(
        &self,
        ws: &WebSocketManager,
        status_page_id: i64,
        user_id: i64,
        fetched: Option<StatusPage>,
    ) -> (r: Option<Broadcast>)
        ensures
            routes_one(r, fetched, status_page_id, user_id, ws@, |x: StatusPage| WebSocketMessage::StatusPageUpdate(x)),
    {
        match fetched {
            Some(x) => if is_record_of(&x, status_page_id, user_id) {
                Some(ws.broadcast_to_user(user_id, WebSocketMessage::StatusPageUpdate(x)))
            } else {
                None
            },
            None => None,
        }
    }

    /// Tells the sessions of `user_id` that status page `status_page_id` is gone.
    pub fn handle_status_page_delete(&self, ws: &WebSocketManager, status_page_id: i64, user_id: i64) -> (r:
        Broadcast)
        ensures
            sent_to_owner(r, ws@, user_id, WebSocketMessage::StatusPageDelete(status_page_id)),
    {
        ws.broadcast_to_user(user_id, WebSocketMessage::StatusPageDelete(status_page_id))
    }

    /// Sends the full status page list of `user_id` to that owner's sessions,
    /// when the fetch succeeded and returned only that owner's records.
    pub fn handle_status_page_list(
        &self,
        ws: &WebSocketManager,
        user_id: i64,
        fetched: Option<Vec<StatusPage>>,
    ) -> (r: Option<Broadcast>)
        ensures
            routes_list(r, fetched, user_id, ws@, |v: Vec<StatusPage>| WebSocketMessage::StatusPageList(v)),
    {
        match fetched {
            Some(v) => if owns_all(&v, user_id) {
                Some(ws.broadcast_to_user(user_id, WebSocketMessage::StatusPageList(v)))
            } else {
                None
            },
            None => None,
        }
    }

    /// Sends the current state of maintenance `maintenance_id` to the
    /// sessions of `user_id`, when the fetch found it for that owner.
    pub fn handle_maintenance_update(
        &self,
        ws: &WebSocketManager,
        maintenance_id: i64,
        user_id: i64,
        fetched: Option<Maintenance>,
    ) -> (r: Option<Broadcast>)
        ensures
            routes_one(r, fetched, maintenance_id, user_id, ws@, |x: Maintenance| WebSocketMessage::MaintenanceUpdate(x)),
    {
        match fetched {
            Some(x) => if is_record_of(&x, maintenance_id, user_id) {
                Some(ws.broadcast_to_user(user_id, WebSocketMessage::MaintenanceUpdate(x)))
            } else {
                None
            },
            None => None,
        }
    }

    /// Tells the sessions of `user_id` that maintenance `maintenance_id` is gone.
    pub fn handle_maintenance_delete(&self, ws: &WebSocketManager, maintenance_id: i64, user_id: i64) -> (r:
        Broadcast)
        ensures
            sent_to_owner(r, ws@, user_id, WebSocketMessage::MaintenanceDelete(maintenance_id)),
    {
        ws.broadcast_to_user(user_id, WebSocketMessage::MaintenanceDelete(maintenance_id))
    }

    /// Sends the full maintenance list of `user_id` to that owner's sessions,
    /// when the fetch succeeded and returned only that owner's records.
    pub fn handle_maintenance_list(
        &self,
        ws: &WebSocketManager,
        user_id: i64,
        fetched: Option<Vec<Maintenance>>,
    ) -> (r: Option<Broadcast>)
        ensures
            routes_list(r, fetched, user_id, ws@, |v: Vec<Maintenance>| WebSocketMessage::MaintenanceList(v)),
    {
        match fetched {
            Some(v) => if owns_all(&v, user_id) {
                Some(ws.broadcast_to_user(user_id, WebSocketMessage::MaintenanceList(v)))
            } else {
                None
            },
            None => None,
        }
    }

    /// Sends the current state of api key `api_key_id` to the
    /// sessions of `user_id`, when the fetch found it for that owner.
    pub fn handle_api_key_update(
        &self,
        ws: &WebSocketManager,
        api_key_id: i64,
        user_id: i64,
        fetched: Option<ApiKey>,
    ) -> (r: Option<Broadcast>)
        ensures
            routes_one(r, fetched, api_key_id, user_id, ws@, |x: ApiKey| WebSocketMessage::ApiKeyUpdate(x)),
    {
        match fetched {
            Some(x) => if is_record_of(&x, api_key_id, user_id) {
                Some(ws.broadcast_to_user(user_id, WebSocketMessage::ApiKeyUpdate(x)))
            } else {
                None
            },
            None => None,
        }
    }

    /// Tells the sessions of `user_id` that api key `api_key_id` is gone.
    pub fn handle_api_key_delete(&self, ws: &WebSocketManager, api_key_id: i64, user_id: i64) -> (r:
        Broadcast)
        ensures
            sent_to_owner(r, ws@, user_id, WebSocketMessage::ApiKeyDelete(api_key_id)),
    {
        ws.broadcast_to_user(user_id, WebSocketMessage::ApiKeyDelete(api_key_id))
    }

    /// Sends the full api key list of `user_id` to that owner's sessions,
    /// when the fetch succeeded and returned only that owner's records.
    pub fn handle_api_key_list(
        &self,
        ws: &WebSocketManager,
        user_id: i64,
        fetched: Option<Vec<ApiKey>>,
    ) -> (r: Option<Broadcast>)
        ensures
            routes_list(r, fetched, user_id, ws@, |v: Vec<ApiKey>| WebSocketMessage::ApiKeyList(v)),
    {
        match fetched {
            Some(v) => if owns_all(&v, user_id) {
                Some(ws.broadcast_to_user(user_id, WebSocketMessage::ApiKeyList(v)))
            } else {
                None
            },
            None => None,
        }
    }

    /// Sends the current state of docker host `docker_host_id` to the
    /// sessions of `user_id`, when the fetch found it for that owner.
    pub fn handle_docker_host_update(
        &self,
        ws: &WebSocketManager,
        docker_host_id: i64,
        user_id: i64,
        fetched: Option<DockerHost>,
    ) -> (r: Option<Broadcast>)
        ensures
            routes_one(r, fetched, docker_host_id, user_id, ws@, |x: DockerHost| WebSocketMessage::DockerHostUpdate(x)),
    {
        match fetched {
            Some(x) => if is_record_of(&x, docker_host_id, user_id) {
                Some(ws.broadcast_to_user(user_id, WebSocketMessage::DockerHostUpdate(x)))
            } else {
                None
            },
            None => None,
        }
    }

    /// Tells the sessions of `user_id` that docker host `docker_host_id` is gone.
    pub fn handle_docker_host_delete(&self, ws: &WebSocketManager, docker_host_id: i64, user_id: i64) -> (r:
        Broadcast)
        ensures
            sent_to_owner(r, ws@, user_id, WebSocketMessage::DockerHostDelete(docker_host_id)),
    {
        ws.broadcast_to_user(user_id, WebSocketMessage::DockerHostDelete(docker_host_id))
    }

    /// Sends the full docker host list of `user_id` to that owner's sessions,
    /// when the fetch succeeded and returned only that owner's records.
    pub fn handle_docker_host_list(
        &self,
        ws: &WebSocketManager,
        user_id: i64,
        fetched: Option<Vec<DockerHost>>,
    ) -> (r: Option<Broadcast>)
        ensures
            routes_list(r, fetched, user_id, ws@, |v: Vec<DockerHost>| WebSocketMessage::DockerHostList(v)),
    {
        match fetched {
            Some(v) => if owns_all(&v, user_id) {
                Some(ws.broadcast_to_user(user_id, WebSocketMessage::DockerHostList(v)))
            } else {
                None
            },
            None => None,
        }
    }

    /// Sends the current state of remote browser `browser_id` to the
    /// sessions of `user_id`, when the fetch found it for that owner.
    pub fn handle_remote_browser_update(
        &self,
        ws: &WebSocketManager,
        browser_id: i64,
        user_id: i64,
        fetched: Option<RemoteBrowser>,
    ) -> (r: Option<Broadcast>)
        ensures
            routes_one(r, fetched, browser_id, user_id, ws@, |x: RemoteBrowser| WebSocketMessage::RemoteBrowserUpdate(x)),
    {
        match fetched {
            Some(x) => if is_record_of(&x, browser_id, user_id) {
                Some(ws.broadcast_to_user(user_id, WebSocketMessage::RemoteBrowserUpdate(x)))
            } else {
                None
            },
            None => None,
        }
    }

    /// Tells the sessions of `user_id` that remote browser `browser_id` is gone.
    pub fn handle_remote_browser_delete(&self, ws: &WebSocketManager, browser_id: i64, user_id: i64) -> (r:
        Broadcast)
        ensures
            sent_to_owner(r, ws@, user_id, WebSocketMessage::RemoteBrowserDelete(browser_id)),
    {
        ws.broadcast_to_user(user_id, WebSocketMessage::RemoteBrowserDelete(browser_id))
    }

    /// Sends the full remote browser list of `user_id` to that owner's sessions,
    /// when the fetch succeeded and returned only that owner's records.
    pub fn handle_remote_browser_list(
        &self,
        ws: &WebSocketManager,
        user_id: i64,
        fetched: Option<Vec<RemoteBrowser>>,
    ) -> (r: Option<Broadcast>)
        ensures
            routes_list(r, fetched, user_id, ws@, |v: Vec<RemoteBrowser>| WebSocketMessage::RemoteBrowserList(v)),
    {
        match fetched {
            Some(v) => if owns_all(&v, user_id) {
                Some(ws.broadcast_to_user(user_id, WebSocketMessage::RemoteBrowserList(v)))
            } else {
                None
            },
            None => None,
        }
    }

    /// Sends a recorded heartbeat to the sessions of the monitor's owner.
    pub fn handle_heartbeat_update(&self, ws: &WebSocketManager, heartbeat: Heartbeat, user_id: i64) -> (r:
        Broadcast)
        ensures
            sent_to_owner(r, ws@, user_id, WebSocketMessage::HeartbeatUpdate(heartbeat)),
    {
        ws.broadcast_to_user(user_id, WebSocketMessage::HeartbeatUpdate(heartbeat))
    }

    /// Sends the history of monitor `monitor_id` to the sessions of
    /// `user_id`, when the fetch succeeded and holds only that monitor's
    /// heartbeats.
    pub fn handle_heartbeat_list(
        &self,
        ws: &WebSocketManager,
        monitor_id: i64,
        user_id: i64,
        fetched: Option<Vec<Heartbeat>>,
    ) -> (r: Option<Broadcast>)
        ensures
            match fetched {
                Some(v) => if forall|i: int| 0 <= i < v@.len() ==> (#[trigger] v@[i]).monitor_id == monitor_id {
                    r matches Some(b) && sent_to_owner(
                        b,
                        ws@,
                        user_id,
                        WebSocketMessage::HeartbeatList { monitor_id, heartbeats: v },
                    )
                } else {
                    r is None
                },
                None => r is None,
            },
    {
        match fetched {
            Some(v) => {
                let mut i: usize = 0;
                while i < v.len()
                    invariant
                        fetched == Some(v),
                        i <= v@.len(),
                        forall|a: int| 0 <= a < i ==> (#[trigger] v@[a]).monitor_id == monitor_id,
                    decreases v.len() - i,
                {
                    if v[i].monitor_id != monitor_id {
                        proof {
                            assert(v@[i as int].monitor_id != monitor_id);
                        }
                        return None;
                    }
                    i = i + 1;
                }
                Some(
                    ws.broadcast_to_user(
                        user_id,
                        WebSocketMessage::HeartbeatList { monitor_id, heartbeats: v },
                    ),
                )
            },
            None => None,
        }
    }

    /// Sends the chart of monitor `monitor_id` to the sessions of
    /// `user_id`, when the fetch succeeded.
    pub fn handle_chart_data(
        &self,
        ws: &WebSocketManager,
        monitor_id: i64,
        user_id: i64,
        fetched: Option<Vec<ChartPoint>>,
    ) -> (r: Option<Broadcast>)
        ensures
            match fetched {
                Some(points) => r matches Some(b) && sent_to_owner(
                    b,
                    ws@,
                    user_id,
                    WebSocketMessage::ChartData { monitor_id, points },
                ),
                None => r is None,
            },
    {
        match fetched {
            Some(points) => Some(
                ws.broadcast_to_user(user_id, WebSocketMessage::ChartData { monitor_id, points }),
            ),
            None => None,
        }
    }

    /// Sends the server's version, uptime and time to the sessions of
    /// `user_id`.
    pub fn handle_system_info(&self, ws: &WebSocketManager, user_id: i64, now: i64) -> (r: Broadcast)
        ensures
            r.message matches WebSocketMessage::Info { version, uptime: u, server_time } && version
                == self.version && u == uptime(self.start_time, now) && server_time == now,
            r.targets@ == ws@.filter(owned_by(user_id)),
    {
        let up: i64 = if now <= self.start_time {
            0
        } else {
            match now.checked_sub(self.start_time) {
                Some(v) => v,
                None => i64::MAX,
            }
        };
        ws.broadcast_to_user(
            user_id,
            WebSocketMessage::Info { version: self.version.clone(), uptime: up, server_time: now },
        )
    }

    /// Serves request `q` of `user_id` from `store` and `tables` to that
    /// owner's sessions.
    pub fn serve(
        &self,
        ws: &WebSocketManager,
        store: &MonitorStore,
        tables: &EntityTables,
        user_id: i64,
        q: Request,
        now: i64,
    ) -> (r: Option<Broadcast>)
        requires
            store.wf(),
            tables.wf(),
        ensures
            served(r, q, *store, *tables, ws@, user_id, self.version, self.start_time, now),
    {
        match q {
            Request::SystemInfo => Some(self.handle_system_info(ws, user_id, now)),
            Request::MonitorList => self.handle_monitor_list(
                ws,
                user_id,
                Some(Monitor::list_by_user(store, user_id)),
            ),
            Request::Monitor(id) => self.handle_monitor_update(
                ws,
                id,
                user_id,
                Monitor::find_by_id(store, id, user_id),
            ),
            Request::HeartbeatList(id) => {
                if Monitor::find_by_id(store, id, user_id).is_none() {
                    return None;
                }
                self.handle_heartbeat_list(ws, id, user_id, Some(store.heartbeats_of(id)))
            },
            Request::ChartData(id) => {
                if Monitor::find_by_id(store, id, user_id).is_none() {
                    return None;
                }
                let hs = store.heartbeats_of(id);
                self.handle_chart_data(ws, id, user_id, Some(chart_of(&hs)))
            },
            Request::NotificationList => self.handle_notification_list(
                ws,
                user_id,
                Some(Notification::get_by_user(store, user_id)),
            ),
            Request::Notification(id) => self.handle_notification_update(
                ws,
                id,
                user_id,
                Notification::get_by_id(store, id, user_id),
            ),
            Request::StatusPageList => self.handle_status_page_list(
                ws,
                user_id,
                Some(tables.status_pages.list(user_id)),
            ),
            Request::StatusPage(id) => self.handle_status_page_update(ws, id, user_id, tables.status_pages.get(id, user_id)),
            Request::MaintenanceList => self.handle_maintenance_list(
                ws,
                user_id,
                Some(tables.maintenances.list(user_id)),
            ),
            Request::Maintenance(id) => self.handle_maintenance_update(ws, id, user_id, tables.maintenances.get(id, user_id)),
            Request::ApiKeyList => self.handle_api_key_list(
                ws,
                user_id,
                Some(tables.api_keys.list(user_id)),
            ),
            Request::ApiKey(id) => self.handle_api_key_update(ws, id, user_id, tables.api_keys.get(id, user_id)),
            Request::DockerHostList => self.handle_docker_host_list(
                ws,
                user_id,
                Some(tables.docker_hosts.list(user_id)),
            ),
            Request::DockerHost(id) => self.handle_docker_host_update(ws, id, user_id, tables.docker_hosts.get(id, user_id)),
            Request::RemoteBrowserList => self.handle_remote_browser_list(
                ws,
                user_id,
                Some(tables.remote_browsers.list(user_id)),
            ),
            Request::RemoteBrowser(id) => self.handle_remote_browser_update(ws, id, user_id, tables.remote_browsers.get(id, user_id)),
        }
    }
}

} // verus!