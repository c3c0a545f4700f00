use kuma_events::message::WebSocketMessage;
use kuma_events::registry::{WebSocketClient, WebSocketManager};

fn error(text: &str) -> WebSocketMessage {
    WebSocketMessage::Error(text.to_string())
}

#[test]
fn broadcast_reaches_only_the_owner() {
    let mut reg = WebSocketManager::new();
    let a1 = reg.add_client(1);
    let b1 = reg.add_client(2);
    let a2 = reg.add_client(1);
    let b = reg.broadcast_to_user(1, error("x"));
    assert_eq!(
        b.targets,
        vec![
            WebSocketClient { user_id: 1, client_id: a1 },
            WebSocketClient { user_id: 1, client_id: a2 }
        ]
    );
    assert!(!b.targets.contains(&WebSocketClient { user_id: 2, client_id: b1 }));
    let other = reg.broadcast_to_user(2, error("y"));
    assert_eq!(other.targets, vec![WebSocketClient { user_id: 2, client_id: b1 }]);
    assert!(reg.broadcast_to_user(3, error("z")).targets.is_empty());
}

#[test]
fn broadcast_to_all_reaches_everyone() {
    let mut reg = WebSocketManager::new();
    reg.add_client(1);
    reg.add_client(2);
    reg.add_client(3);
    assert_eq!(reg.broadcast_to_all(error("v")).targets.len(), 3);
}

#[test]
fn session_ids_are_distinct() {
    let mut reg = WebSocketManager::new();
    let a = reg.add_client(5);
    let b = reg.add_client(5);
    let c = reg.add_client(6);
    assert_ne!(a, b);
    assert_ne!(b, c);
    assert_ne!(a, c);
    reg.remove_client(6, c);
    let d = reg.add_client(6);
    assert_ne!(d, c);
}

#[test]
fn register_then_deregister_keeps_count() {
    let mut reg = WebSocketManager::new();
    reg.add_client(1);
    reg.add_client(2);
    let before = reg.session_count();
    let id = reg.add_client(1);
    assert_eq!(reg.session_count(), before + 1);
    reg.remove_client(1, id);
    assert_eq!(reg.session_count(), before);
    assert!(reg.get_client(1, id).is_none());
}

#[test]
fn deregister_unknown_is_a_no_op() {
    let mut reg = WebSocketManager::new();
    let id = reg.add_client(1);
    reg.remove_client(1, id + 100);
    reg.remove_client(2, id);
    assert_eq!(reg.session_count(), 1);
    reg.remove_client(1, id);
    reg.remove_client(1, id);
    assert_eq!(reg.session_count(), 0);
}

#[test]
fn get_client_finds_live_sessions() {
    let mut reg = WebSocketManager::new();
    let id = reg.add_client(4);
    assert_eq!(reg.get_client(4, id), Some(WebSocketClient { user_id: 4, client_id: id }));
    assert_eq!(reg.get_client(5, id), None);
}

#[test]
fn failed_write_removes_only_that_session() {
    let mut reg = WebSocketManager::new();
    let s1 = reg.add_client(1);
    let s2 = reg.add_client(1);
    let s3 = reg.add_client(1);
    let other = reg.add_client(2);
    let b = reg.broadcast_to_user(1, error("m"));
    assert_eq!(b.targets.len(), 3);
    let delivered = vec![true, false, true];
    reg.drop_failed(&b.targets, &delivered);
    assert!(reg.get_client(1, s1).is_some());
    assert!(reg.get_client(1, s2).is_none());
    assert!(reg.get_client(1, s3).is_some());
    assert!(reg.get_client(2, other).is_some());
    assert_eq!(reg.session_count(), 3);
    let next = reg.broadcast_to_user(1, error("n"));
    assert_eq!(next.targets.len(), 2);
}

#[test]
fn has_capacity_on_a_fresh_registry() {
    let reg = WebSocketManager::new();
    assert!(reg.has_capacity());
    assert_eq!(reg.session_count(), 0);
}

#[test]
fn reply_goes_to_one_session() {
    let mut reg = WebSocketManager::new();
    let a = reg.add_client(1);
    reg.add_client(1);
    let b = reg.send_to_client(1, a, error("Unknown action: bogus_action"));
    assert_eq!(b.targets, vec![WebSocketClient { user_id: 1, client_id: a }]);
    assert!(reg.send_to_client(2, a, error("e")).targets.is_empty());
}
