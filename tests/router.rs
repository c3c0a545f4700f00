use kuma_events::handlers::WebSocketHandlers;
use kuma_events::message::WebSocketMessage;
use kuma_events::model::{CreateMonitor, DockerHost, Monitor, MonitorStatus, StatusPage};
use kuma_events::registry::{WebSocketClient, WebSocketManager};
use kuma_events::session::Request;
use kuma_events::store::MonitorStore;
use kuma_events::table::EntityTables;

fn monitor_of(store: &mut MonitorStore, user: i64, name: &str) -> Monitor {
    Monitor::create(
        store,
        user,
        CreateMonitor {
            name: name.to_string(),
            url: "http://x".to_string(),
            type_: "http".to_string(),
            interval: None,
            timeout: None,
        },
        0,
    )
    .unwrap()
}

fn handlers() -> WebSocketHandlers {
    WebSocketHandlers::new("1.0.0".to_string(), 100)
}

#[test]
fn foreign_monitor_is_not_broadcast() {
    let mut store = MonitorStore::new();
    let mut ws = WebSocketManager::new();
    ws.add_client(1);
    ws.add_client(2);
    let mut id = 0;
    while id != 42 {
        id = monitor_of(&mut store, 1, "owned by one").id;
    }
    let h = handlers();
    assert!(h.serve(&ws, &store, &EntityTables::new(), 2, Request::Monitor(42), 0).is_none());
    assert!(h.handle_monitor_update(&ws, 42, 2, Monitor::find_by_id(&store, 42, 2)).is_none());
    assert!(h.handle_monitor_update(&ws, 42, 2, Monitor::find_by_id(&store, 42, 1)).is_none());
    let own = h.serve(&ws, &store, &EntityTables::new(), 1, Request::Monitor(42), 0).unwrap();
    assert_eq!(own.targets.len(), 1);
    assert_eq!(own.targets[0].user_id, 1);
    assert!(matches!(own.message, WebSocketMessage::MonitorUpdate(ref m) if m.id == 42));
}

#[test]
fn list_goes_to_owner_sessions() {
    let mut store = MonitorStore::new();
    let mut ws = WebSocketManager::new();
    let a = ws.add_client(1);
    ws.add_client(2);
    let b = ws.add_client(1);
    monitor_of(&mut store, 1, "a");
    monitor_of(&mut store, 2, "b");
    let out = handlers().serve(&ws, &store, &EntityTables::new(), 1, Request::MonitorList, 0).unwrap();
    assert_eq!(
        out.targets,
        vec![WebSocketClient { user_id: 1, client_id: a }, WebSocketClient { user_id: 1, client_id: b }]
    );
    match out.message {
        WebSocketMessage::MonitorList(v) => {
            assert_eq!(v.len(), 1);
            assert_eq!(v[0].name, "a");
        }
        other => panic!("unexpected {:?}", other),
    }
}

#[test]
fn list_with_foreign_record_is_skipped() {
    let ws = WebSocketManager::new();
    let h = handlers();
    let foreign = DockerHost {
        id: 1,
        user_id: 9,
        name: "d".to_string(),
        url: "tcp://d".to_string(),
        status: "up".to_string(),
    };
    assert!(h.handle_docker_host_list(&ws, 1, Some(vec![foreign])).is_none());
    assert!(h.handle_docker_host_list(&ws, 1, None).is_none());
    assert!(h.handle_docker_host_list(&ws, 1, Some(Vec::new())).is_some());
}

#[test]
fn delete_event_carries_only_the_id() {
    let mut ws = WebSocketManager::new();
    ws.add_client(3);
    let b = handlers().handle_monitor_delete(&ws, 17, 3);
    assert!(matches!(b.message, WebSocketMessage::MonitorDelete(17)));
    assert_eq!(b.targets.len(), 1);
}

#[test]
fn system_info_reports_uptime() {
    let mut ws = WebSocketManager::new();
    ws.add_client(3);
    let h = handlers();
    match h.handle_system_info(&ws, 3, 160).message {
        WebSocketMessage::Info { version, uptime, server_time } => {
            assert_eq!(version, "1.0.0");
            assert_eq!(uptime, 60);
            assert_eq!(server_time, 160);
        }
        other => panic!("unexpected {:?}", other),
    }
    match h.handle_system_info(&ws, 3, 50).message {
        WebSocketMessage::Info { uptime, .. } => assert_eq!(uptime, 0),
        other => panic!("unexpected {:?}", other),
    }
}

#[test]
fn heartbeats_and_chart_of_own_monitor() {
    let mut store = MonitorStore::new();
    let mut ws = WebSocketManager::new();
    ws.add_client(1);
    let m = monitor_of(&mut store, 1, "a");
    Monitor::update_status(&mut store, m.id, MonitorStatus::Up, Some(12), None, 5).unwrap();
    Monitor::update_status(&mut store, m.id, MonitorStatus::Down, None, Some("x".to_string()), 6).unwrap();
    let h = handlers();
    match h.serve(&ws, &store, &EntityTables::new(), 1, Request::HeartbeatList(m.id), 0).unwrap().message {
        WebSocketMessage::HeartbeatList { monitor_id, heartbeats } => {
            assert_eq!(monitor_id, m.id);
            assert_eq!(heartbeats.len(), 2);
        }
        other => panic!("unexpected {:?}", other),
    }
    match h.serve(&ws, &store, &EntityTables::new(), 1, Request::ChartData(m.id), 0).unwrap().message {
        WebSocketMessage::ChartData { points, .. } => {
            assert_eq!(points.len(), 1);
            assert_eq!(points[0].time, 5);
            assert_eq!(points[0].value, 12);
        }
        other => panic!("unexpected {:?}", other),
    }
    assert!(h.serve(&ws, &store, &EntityTables::new(), 2, Request::HeartbeatList(m.id), 0).is_none());
    assert!(h.serve(&ws, &store, &EntityTables::new(), 2, Request::ChartData(m.id), 0).is_none());
}

#[test]
fn other_kinds_come_from_their_tables() {
    let store = MonitorStore::new();
    let mut tables = EntityTables::new();
    let page = StatusPage {
        id: 0,
        user_id: 1,
        name: "public".to_string(),
        slug: "pub".to_string(),
        config: "{}".to_string(),
    };
    let page = tables.status_pages.insert(page).unwrap();
    let mut ws = WebSocketManager::new();
    ws.add_client(1);
    ws.add_client(2);
    let h = handlers();
    match h.serve(&ws, &store, &tables, 1, Request::StatusPageList, 0).unwrap().message {
        WebSocketMessage::StatusPageList(v) => assert_eq!(v.len(), 1),
        other => panic!("unexpected {:?}", other),
    }
    match h.serve(&ws, &store, &tables, 2, Request::StatusPageList, 0).unwrap().message {
        WebSocketMessage::StatusPageList(v) => assert!(v.is_empty()),
        other => panic!("unexpected {:?}", other),
    }
    let one = h.serve(&ws, &store, &tables, 1, Request::StatusPage(page.id), 0).unwrap();
    assert_eq!(one.targets.len(), 1);
    assert!(h.serve(&ws, &store, &tables, 2, Request::StatusPage(page.id), 0).is_none());
    assert!(h.serve(&ws, &store, &tables, 1, Request::ApiKey(1), 0).is_none());
}
