use kuma_events::model::{AppError, CreateMonitor, Monitor, MonitorStatus};
use kuma_events::probe::{check_http, check_ping, ping_host, unsupported_kind, MonitorService, ProbePlan};
use kuma_events::store::MonitorStore;

#[test]
fn http_503_is_down_with_status_detail() {
    match check_http(503) {
        Err(AppError::UpstreamFailure(m)) => assert_eq!(m, "HTTP status code: 503 Service Unavailable"),
        other => panic!("expected a failure, got {:?}", other),
    }
}

#[test]
fn http_2xx_is_up() {
    assert!(check_http(200).is_ok());
    assert!(check_http(204).is_ok());
    assert!(check_http(299).is_ok());
    assert!(check_http(199).is_err());
    assert!(check_http(300).is_err());
}

#[test]
fn http_404_and_unknown_codes() {
    match check_http(404) {
        Err(AppError::UpstreamFailure(m)) => assert_eq!(m, "HTTP status code: 404 Not Found"),
        other => panic!("unexpected {:?}", other),
    }
    match check_http(599) {
        Err(AppError::UpstreamFailure(m)) => assert_eq!(m, "HTTP status code: 599 <unknown status code>"),
        other => panic!("unexpected {:?}", other),
    }
}

#[test]
fn ping_result_and_unsupported_kind() {
    assert!(check_ping(true).is_ok());
    match check_ping(false) {
        Err(AppError::UpstreamFailure(m)) => assert_eq!(m, "Ping failed"),
        other => panic!("unexpected {:?}", other),
    }
    match unsupported_kind() {
        AppError::BadRequest(m) => assert_eq!(m, "Unsupported monitor type"),
        other => panic!("unexpected {:?}", other),
    }
}

#[test]
fn ping_host_strips_scheme_and_path() {
    assert_eq!(ping_host("https://example.com/health"), "example.com");
    assert_eq!(ping_host("http://10.0.0.1"), "10.0.0.1");
    assert_eq!(ping_host("host.local/x/y"), "host.local");
    assert_eq!(ping_host(""), "");
}

fn create(store: &mut MonitorStore, kind: &str, url: &str, timeout: Option<i32>) -> Monitor {
    Monitor::create(
        store,
        1,
        CreateMonitor {
            name: "m".to_string(),
            url: url.to_string(),
            type_: kind.to_string(),
            interval: None,
            timeout,
        },
        0,
    )
    .unwrap()
}

#[test]
fn plan_follows_the_kind() {
    let mut store = MonitorStore::new();
    let svc = MonitorService::new();
    let h = create(&mut store, "http", "http://a.b/c", Some(7));
    let p = create(&mut store, "ping", "https://a.b/c", None);
    let d = create(&mut store, "dns", "a.b", None);
    match svc.plan_check(&store, h.id, 1).unwrap() {
        ProbePlan::Http { url, timeout_secs } => {
            assert_eq!(url, "http://a.b/c");
            assert_eq!(timeout_secs, 7);
        }
        other => panic!("unexpected {:?}", other),
    }
    match svc.plan_check(&store, p.id, 1).unwrap() {
        ProbePlan::Ping { host, timeout_secs } => {
            assert_eq!(host, "a.b");
            assert_eq!(timeout_secs, 30);
        }
        other => panic!("unexpected {:?}", other),
    }
    assert!(matches!(svc.plan_check(&store, d.id, 1).unwrap(), ProbePlan::Unsupported));
    assert!(matches!(svc.plan_check(&store, d.id, 2), Err(AppError::NotFound)));
}

#[test]
fn http_503_check_records_down_heartbeat() {
    let mut store = MonitorStore::new();
    let svc = MonitorService::new();
    let m = create(&mut store, "http", "http://a.b", None);
    svc.check_status(&mut store, m.id, 1, check_http(503), 25, 100).unwrap();
    let hs = store.heartbeats_of(m.id);
    assert_eq!(hs.len(), 1);
    assert_eq!(hs[0].status, MonitorStatus::Down);
    assert_eq!(hs[0].ping, Some(25));
    assert_eq!(hs[0].message.as_deref(), Some("HTTP status code: 503 Service Unavailable"));
    assert_eq!(svc.get(&store, m.id, 1).unwrap().status, MonitorStatus::Down);
}

#[test]
fn successful_check_records_up() {
    let mut store = MonitorStore::new();
    let svc = MonitorService::new();
    let m = create(&mut store, "http", "http://a.b", None);
    svc.check_status(&mut store, m.id, 1, check_http(200), 5, 7).unwrap();
    let got = svc.get(&store, m.id, 1).unwrap();
    assert_eq!(got.status, MonitorStatus::Up);
    assert_eq!(got.last_check, Some(7));
    assert_eq!(store.heartbeats_of(m.id)[0].message, None);
    assert!(matches!(svc.check_status(&mut store, m.id, 2, Ok(()), 5, 8), Err(AppError::NotFound)));
    assert_eq!(store.heartbeats_of(m.id).len(), 1);
}

#[test]
fn error_texts_and_statuses() {
    assert_eq!(AppError::NotFound.status_code(), 404);
    assert_eq!(AppError::NotFound.message(), "Resource not found");
    assert_eq!(AppError::InvalidCredentials.status_code(), 401);
    assert_eq!(AppError::BadRequest("bad".to_string()).message(), "bad");
    assert_eq!(AppError::DatabaseError.status_code(), 500);
    assert_eq!(AppError::UpstreamFailure("x".to_string()).status_code(), 502);
}
