use kuma_events::model::{
    AppError, CreateMonitor, MonitorStatus, NotificationConfig, UpdateMonitor,
};
use kuma_events::probe::MonitorService;
use kuma_events::store::MonitorStore;
use kuma_events::model::{ApiKey, DockerHost, Monitor, Notification};
use kuma_events::table::EntityTables;

fn input(name: &str, url: &str, kind: &str) -> CreateMonitor {
    CreateMonitor {
        name: name.to_string(),
        url: url.to_string(),
        type_: kind.to_string(),
        interval: None,
        timeout: None,
    }
}

#[test]
fn created_monitor_round_trips() {
    let mut store = MonitorStore::new();
    let created = Monitor::create(
        &mut store,
        1,
        CreateMonitor {
            name: "site".to_string(),
            url: "https://example.com".to_string(),
            type_: "https".to_string(),
            interval: Some(120),
            timeout: Some(10),
        },
        1000,
    )
    .unwrap();
    let found = Monitor::find_by_id(&store, created.id, 1).unwrap();
    assert_eq!(found.name, "site");
    assert_eq!(found.url, "https://example.com");
    assert_eq!(found.type_, "https");
    assert_eq!(found.interval, 120);
    assert_eq!(found.timeout, 10);
    assert_eq!(found.status, MonitorStatus::Unknown);
    assert_eq!(found.last_check, None);
}

#[test]
fn create_applies_defaults() {
    let mut store = MonitorStore::new();
    let m = Monitor::create(&mut store, 1, input("a", "http://a", "http"), 5).unwrap();
    assert_eq!(m.interval, 60);
    assert_eq!(m.timeout, 30);
    assert_eq!(m.created_at, 5);
}

#[test]
fn other_owner_cannot_fetch() {
    let mut store = MonitorStore::new();
    let m = Monitor::create(&mut store, 1, input("a", "http://a", "http"), 5).unwrap();
    assert!(Monitor::find_by_id(&store, m.id, 2).is_none());
    let svc = MonitorService::new();
    assert!(matches!(svc.get(&store, m.id, 2), Err(AppError::NotFound)));
    assert!(matches!(svc.get(&store, m.id + 1, 1), Err(AppError::NotFound)));
}

#[test]
fn list_is_owner_scoped() {
    let mut store = MonitorStore::new();
    Monitor::create(&mut store, 1, input("a", "http://a", "http"), 5).unwrap();
    Monitor::create(&mut store, 2, input("b", "http://b", "http"), 5).unwrap();
    Monitor::create(&mut store, 1, input("c", "http://c", "http"), 5).unwrap();
    let mine = Monitor::list_by_user(&store, 1);
    let names: Vec<String> = mine.iter().map(|m| m.name.clone()).collect();
    assert_eq!(names, vec!["c".to_string(), "a".to_string()]);
    assert_eq!(Monitor::list_by_user(&store, 3).len(), 0);
}

#[test]
fn update_keeps_unset_fields() {
    let mut store = MonitorStore::new();
    let m = Monitor::create(&mut store, 1, input("a", "http://a", "http"), 5).unwrap();
    let changes = UpdateMonitor {
        name: Some("renamed".to_string()),
        url: None,
        type_: None,
        interval: Some(15),
        timeout: None,
    };
    let u = Monitor::update(&mut store, m.id, 1, changes).unwrap();
    assert_eq!(u.name, "renamed");
    assert_eq!(u.url, "http://a");
    assert_eq!(u.interval, 15);
    assert_eq!(u.timeout, 30);
    let none = UpdateMonitor { name: Some("x".to_string()), url: None, type_: None, interval: None, timeout: None };
    assert!(Monitor::update(&mut store, m.id, 2, none).is_none());
    assert_eq!(Monitor::find_by_id(&store, m.id, 1).unwrap().name, "renamed");
}

#[test]
fn delete_only_own_monitor() {
    let mut store = MonitorStore::new();
    let m = Monitor::create(&mut store, 1, input("a", "http://a", "http"), 5).unwrap();
    assert!(!Monitor::delete(&mut store, m.id, 2));
    assert!(Monitor::find_by_id(&store, m.id, 1).is_some());
    assert!(Monitor::delete(&mut store, m.id, 1));
    assert!(Monitor::find_by_id(&store, m.id, 1).is_none());
    assert!(!Monitor::delete(&mut store, m.id, 1));
}

#[test]
fn two_outcomes_leave_two_heartbeats_and_latest_status() {
    let mut store = MonitorStore::new();
    let m = Monitor::create(&mut store, 1, input("a", "http://a", "http"), 5).unwrap();
    Monitor::update_status(&mut store, m.id, MonitorStatus::Down, Some(40), Some("boom".to_string()), 10).unwrap();
    Monitor::update_status(&mut store, m.id, MonitorStatus::Up, Some(12), None, 20).unwrap();
    let hs = store.heartbeats_of(m.id);
    assert_eq!(hs.len(), 2);
    assert_eq!(hs[0].status, MonitorStatus::Down);
    assert_eq!(hs[0].message.as_deref(), Some("boom"));
    assert_eq!(hs[1].status, MonitorStatus::Up);
    let now = Monitor::find_by_id(&store, m.id, 1).unwrap();
    assert_eq!(now.status, MonitorStatus::Up);
    assert_eq!(now.last_check, Some(20));
}

#[test]
fn recording_unknown_monitor_changes_nothing() {
    let mut store = MonitorStore::new();
    let r = Monitor::update_status(&mut store, 99, MonitorStatus::Up, Some(1), None, 1);
    assert!(matches!(r, Err(AppError::NotFound)));
    assert_eq!(store.heartbeats_of(99).len(), 0);
}

fn channel(name: &str, kind: &str, config: &str) -> NotificationConfig {
    NotificationConfig {
        name: name.to_string(),
        type_: kind.to_string(),
        is_default: false,
        provider_config: config.to_string(),
    }
}

#[test]
fn notification_crud_is_owner_scoped() {
    let mut store = MonitorStore::new();
    let n = Notification::create(&mut store, 1, channel("chat", "discord", "{}"), 3).unwrap();
    assert!(Notification::get_by_id(&store, n.id, 2).is_none());
    assert_eq!(Notification::get_by_id(&store, n.id, 1).unwrap().name, "chat");
    assert_eq!(Notification::get_by_user(&store, 1).len(), 1);
    assert_eq!(Notification::get_by_user(&store, 2).len(), 0);
    let u = Notification::update(&mut store, n.id, 1, channel("chat2", "telegram", "{}"), 9).unwrap();
    assert_eq!(u.name, "chat2");
    assert_eq!(u.created_at, 3);
    assert_eq!(u.updated_at, 9);
    assert!(matches!(
        Notification::update(&mut store, n.id, 2, channel("x", "email", "{}"), 9),
        Err(AppError::NotFound)
    ));
    assert!(!Notification::delete(&mut store, n.id, 2));
    assert!(Notification::delete(&mut store, n.id, 1));
    assert!(Notification::get_by_id(&store, n.id, 1).is_none());
}

#[test]
fn monitor_notifications_follow_links() {
    let mut store = MonitorStore::new();
    let m = Monitor::create(&mut store, 1, input("a", "http://a", "http"), 5).unwrap();
    let n1 = Notification::create(&mut store, 1, channel("one", "discord", "{}"), 3).unwrap();
    let n2 = Notification::create(&mut store, 1, channel("two", "email", "{}"), 3).unwrap();
    let foreign = Notification::create(&mut store, 2, channel("three", "email", "{}"), 3).unwrap();
    assert!(store.link_notification(m.id, n2.id, 1));
    assert!(store.link_notification(m.id, n2.id, 1));
    assert!(!store.link_notification(m.id, foreign.id, 1));
    assert!(!store.link_notification(m.id, foreign.id, 2));
    let linked = Notification::get_monitor_notifications(&store, m.id);
    assert_eq!(linked.len(), 1);
    assert_eq!(linked[0].id, n2.id);
    assert_ne!(linked[0].id, n1.id);
}

#[test]
fn list_is_newest_first_even_when_clock_goes_back() {
    let mut store = MonitorStore::new();
    let first = Monitor::create(&mut store, 1, input("a", "http://a", "http"), 10).unwrap();
    let second = Monitor::create(&mut store, 1, input("b", "http://b", "http"), 5).unwrap();
    let third = Monitor::create(&mut store, 1, input("c", "http://c", "http"), 20).unwrap();
    assert_eq!(first.created_at, 10);
    assert_eq!(second.created_at, 10);
    assert_eq!(third.created_at, 20);
    let ids: Vec<i64> = Monitor::list_by_user(&store, 1).iter().map(|m| m.id).collect();
    assert_eq!(ids, vec![third.id, second.id, first.id]);
}

#[test]
fn entity_tables_are_owner_scoped() {
    let mut t = EntityTables::new();
    let host = DockerHost {
        id: 0,
        user_id: 1,
        name: "d".to_string(),
        url: "tcp://d".to_string(),
        status: "up".to_string(),
    };
    let stored = t.docker_hosts.insert(host).unwrap();
    assert_eq!(stored.id, 1);
    assert_eq!(t.docker_hosts.get(stored.id, 1).unwrap().name, "d");
    assert!(t.docker_hosts.get(stored.id, 2).is_none());
    assert_eq!(t.docker_hosts.list(1).len(), 1);
    assert_eq!(t.docker_hosts.list(2).len(), 0);
    assert!(!t.docker_hosts.remove(stored.id, 2));
    assert!(t.docker_hosts.remove(stored.id, 1));
    assert!(t.docker_hosts.get(stored.id, 1).is_none());
    let key = ApiKey { id: 0, user_id: 3, name: "k".to_string(), key: "SECRET-REDACTED".to_string(), created_at: 4 };
    let k1 = t.api_keys.insert(key).unwrap();
    assert_eq!(t.api_keys.get(k1.id, 3).unwrap().created_at, 4);
}

#[test]
fn channels_are_listed_by_name() {
    let mut store = MonitorStore::new();
    Notification::create(&mut store, 1, channel("ops", "email", "{}"), 1).unwrap();
    Notification::create(&mut store, 1, channel("alerts", "email", "{}"), 2).unwrap();
    Notification::create(&mut store, 2, channel("aaa", "email", "{}"), 3).unwrap();
    Notification::create(&mut store, 1, channel("oncall", "discord", "{}"), 4).unwrap();
    Notification::create(&mut store, 1, channel("Zed", "discord", "{}"), 5).unwrap();
    let names: Vec<String> = Notification::get_by_user(&store, 1).into_iter().map(|n| n.name).collect();
    assert_eq!(names, vec!["Zed", "alerts", "oncall", "ops"]);
}
