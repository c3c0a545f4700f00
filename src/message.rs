//! The messages the server sends to sessions: one case per domain object
//! for update-one, delete-one and list, plus chart data, server info and
//! errors.
use vstd::prelude::*;
use crate::model::{
    ApiKey, ChartPoint, DockerHost, Heartbeat, Maintenance, Monitor, Notification,
    RemoteBrowser, StatusPage,
};

verus! {

#[derive(Debug)]
pub enum WebSocketMessage {
    MonitorUpdate(Monitor),
    MonitorDelete(i64),
    MonitorList(Vec<Monitor>),
    HeartbeatUpdate(Heartbeat),
    HeartbeatList { monitor_id: i64, heartbeats: Vec<Heartbeat> },
    NotificationUpdate(Notification),
    NotificationDelete(i64),
    NotificationList(Vec<Notification>),
    StatusPageUpdate(StatusPage),
    StatusPageDelete(i64),
    StatusPageList(Vec<StatusPage>),
    ChartData { monitor_id: i64, points: Vec<ChartPoint> },
    MaintenanceUpdate(Maintenance),
    MaintenanceDelete(i64),
    MaintenanceList(Vec<Maintenance>),
    ApiKeyUpdate(ApiKey),
    ApiKeyDelete(i64),
    ApiKeyList(Vec<ApiKey>),
    DockerHostUpdate(DockerHost),
    DockerHostDelete(i64),
    DockerHostList(Vec<DockerHost>),
    RemoteBrowserUpdate(RemoteBrowser),
    RemoteBrowserDelete(i64),
    RemoteBrowserList(Vec<RemoteBrowser>),
    Info { version: String, uptime: i64, server_time: i64 },
    Error(String),
}

} // verus!
