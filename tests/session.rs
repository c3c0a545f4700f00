use kuma_events::message::WebSocketMessage;
use kuma_events::session::{
    handle_message, route_action, send_initial_data, Request, SessionAction, SessionEvent,
    SessionState, WebSocketConnection,
};

fn fetch_of(a: SessionAction) -> Option<Request> {
    match a {
        SessionAction::Fetch(q) => Some(q),
        _ => None,
    }
}

#[test]
fn snapshot_comes_first_in_fixed_order() {
    let mut s = WebSocketConnection::new(7, 1);
    assert_eq!(s.state, SessionState::Connecting);
    let ignored = s.handle_event(SessionEvent::Text("{\"action\":\"get_monitor_list\"}".to_string()));
    assert!(matches!(ignored, SessionAction::Nothing));
    match s.handle_event(SessionEvent::Upgraded) {
        SessionAction::Snapshot(v) => assert_eq!(
            v,
            vec![
                Request::SystemInfo,
                Request::MonitorList,
                Request::NotificationList,
                Request::StatusPageList,
                Request::MaintenanceList,
                Request::ApiKeyList,
                Request::DockerHostList,
                Request::RemoteBrowserList,
            ]
        ),
        other => panic!("expected the snapshot, got {:?}", other),
    }
    assert_eq!(s.state, SessionState::Active);
    assert_eq!(send_initial_data().len(), 8);
}

#[test]
fn active_session_answers_frames() {
    let mut s = WebSocketConnection::new(7, 1);
    s.handle_event(SessionEvent::Upgraded);
    let a = s.handle_event(SessionEvent::Text("{\"action\":\"get_monitor\",\"monitor_id\":42}".to_string()));
    assert_eq!(fetch_of(a), Some(Request::Monitor(42)));
}

#[test]
fn session_closes_and_deregisters() {
    let mut s = WebSocketConnection::new(7, 1);
    s.handle_event(SessionEvent::Upgraded);
    assert!(matches!(s.handle_event(SessionEvent::ReadEnded), SessionAction::Deregister));
    assert_eq!(s.state, SessionState::Closing);
    let late = s.handle_event(SessionEvent::Text("{\"action\":\"get_system_info\"}".to_string()));
    assert!(matches!(late, SessionAction::Nothing));
    assert!(matches!(s.handle_event(SessionEvent::Removed), SessionAction::Nothing));
    assert_eq!(s.state, SessionState::Closed);
    assert!(matches!(s.handle_event(SessionEvent::ReadEnded), SessionAction::Nothing));
}

#[test]
fn unknown_action_is_answered_with_error() {
    match handle_message("{\"action\":\"bogus_action\"}") {
        SessionAction::Reply(WebSocketMessage::Error(t)) => {
            assert_eq!(t, "Unknown action: bogus_action")
        }
        other => panic!("expected an error reply, got {:?}", other),
    }
}

#[test]
fn list_actions_need_no_id() {
    let cases = [
        ("get_monitor_list", Request::MonitorList),
        ("get_notification_list", Request::NotificationList),
        ("get_status_page_list", Request::StatusPageList),
        ("get_maintenance_list", Request::MaintenanceList),
        ("get_api_key_list", Request::ApiKeyList),
        ("get_docker_host_list", Request::DockerHostList),
        ("get_remote_browser_list", Request::RemoteBrowserList),
        ("get_system_info", Request::SystemInfo),
    ];
    for (action, q) in cases {
        let frame = format!("{{\"action\":\"{}\"}}", action);
        assert_eq!(fetch_of(handle_message(&frame)), Some(q));
    }
}

#[test]
fn id_actions_read_their_own_id_member() {
    let cases = [
        ("get_monitor", "monitor_id", Request::Monitor(3)),
        ("get_heartbeat_list", "monitor_id", Request::HeartbeatList(3)),
        ("get_chart_data", "monitor_id", Request::ChartData(3)),
        ("get_notification", "notification_id", Request::Notification(3)),
        ("get_status_page", "status_page_id", Request::StatusPage(3)),
        ("get_maintenance", "maintenance_id", Request::Maintenance(3)),
        ("get_api_key", "api_key_id", Request::ApiKey(3)),
        ("get_docker_host", "docker_host_id", Request::DockerHost(3)),
        ("get_remote_browser", "browser_id", Request::RemoteBrowser(3)),
    ];
    for (action, key, q) in cases {
        let frame = format!("{{\"action\":\"{}\",\"{}\":3}}", action, key);
        assert_eq!(fetch_of(handle_message(&frame)), Some(q));
    }
}

#[test]
fn id_action_without_id_is_ignored() {
    assert!(matches!(handle_message("{\"action\":\"get_monitor\"}"), SessionAction::Nothing));
    assert!(matches!(
        handle_message("{\"action\":\"get_monitor\",\"notification_id\":3}"),
        SessionAction::Nothing
    ));
    assert!(matches!(
        handle_message("{\"action\":\"get_monitor\",\"monitor_id\":\"3\"}"),
        SessionAction::Nothing
    ));
}

fn is_invalid_reply(a: SessionAction) -> bool {
    matches!(a, SessionAction::Reply(WebSocketMessage::Error(ref t)) if t == "Invalid message")
}

#[test]
fn malformed_frames_get_an_error() {
    assert!(is_invalid_reply(handle_message("not json")));
    assert!(is_invalid_reply(handle_message("{\"action\":7}")));
    assert!(is_invalid_reply(handle_message("{}")));
    assert!(is_invalid_reply(handle_message("[1,2]")));
}

#[test]
fn active_session_answers_garbage_and_stays_active() {
    let mut s = WebSocketConnection::new(7, 1);
    s.handle_event(SessionEvent::Upgraded);
    assert!(is_invalid_reply(s.handle_event(SessionEvent::Text("garbage".to_string()))));
    assert_eq!(s.state, SessionState::Active);
    let next = s.handle_event(SessionEvent::Text("{\"action\":\"get_system_info\"}".to_string()));
    assert_eq!(fetch_of(next), Some(Request::SystemInfo));
}

#[test]
fn route_action_directly() {
    assert_eq!(fetch_of(route_action("get_maintenance", Some(9))), Some(Request::Maintenance(9)));
    assert!(matches!(route_action("get_maintenance", None), SessionAction::Nothing));
    match route_action("", None) {
        SessionAction::Reply(WebSocketMessage::Error(t)) => assert_eq!(t, "Unknown action: "),
        other => panic!("expected an error reply, got {:?}", other),
    }
}
