use kuma_events::model::{AppError, Heartbeat, Monitor, MonitorStatus, Notification, NotificationConfig};
use kuma_events::notify::{get_provider, NotificationService, SendPlan};
use kuma_events::store::MonitorStore;

fn channel(kind: &str, config: &str) -> Notification {
    Notification {
        id: 1,
        user_id: 1,
        name: "ops".to_string(),
        type_: kind.to_string(),
        config: config.to_string(),
        is_default: false,
        created_at: 0,
        updated_at: 0,
    }
}

fn monitor() -> Monitor {
    Monitor {
        id: 4,
        user_id: 1,
        name: "api".to_string(),
        url: "http://api".to_string(),
        type_: "http".to_string(),
        interval: 60,
        timeout: 30,
        status: MonitorStatus::Down,
        last_check: None,
        created_at: 0,
        updated_at: 0,
    }
}

fn beat() -> Heartbeat {
    Heartbeat { monitor_id: 4, status: MonitorStatus::Down, ping: Some(3), message: None, time: 9 }
}

#[test]
fn provider_resolution() {
    assert_eq!(get_provider("telegram").unwrap().name(), "telegram");
    assert_eq!(get_provider("discord").unwrap().name(), "discord");
    assert_eq!(get_provider("email").unwrap().name(), "email");
    assert!(get_provider("slack").is_none());
    assert!(get_provider("Telegram").is_none());
}

#[test]
fn telegram_request() {
    let svc = NotificationService::new();
    let n = channel("telegram", "{\"botToken\":\"T0K\",\"chatID\":\"42\"}");
    let m = monitor();
    let h = beat();
    match svc.send_notification(&n, "went down", Some(&m), Some(&h)).unwrap() {
        SendPlan::Post { url, body } => {
            assert_eq!(url, "https://api.telegram.org/botT0K/sendMessage");
            assert_eq!(
                body,
                "{\"chat_id\":\"42\",\"parse_mode\":\"HTML\",\"text\":\"Monitor: api\\nwent down\\nStatus: down\"}"
            );
            let v: serde_json::Value = serde_json::from_str(&body).unwrap();
            assert_eq!(v["text"], "Monitor: api\nwent down\nStatus: down");
        }
        other => panic!("unexpected {:?}", other),
    }
}

#[test]
fn discord_request_uses_markup() {
    let svc = NotificationService::new();
    let n = channel("discord", "{\"webhookURL\":\"https://hook\"}");
    let m = monitor();
    match svc.send_notification(&n, "hi", Some(&m), None).unwrap() {
        SendPlan::Post { url, body } => {
            assert_eq!(url, "https://hook");
            assert_eq!(body, "{\"content\":\"**Monitor:** api\\nhi\"}");
        }
        other => panic!("unexpected {:?}", other),
    }
}

#[test]
fn missing_config_members() {
    let svc = NotificationService::new();
    let cases = [
        ("telegram", "{\"chatID\":\"1\"}", "Missing bot token"),
        ("telegram", "{\"botToken\":\"1\"}", "Missing chat ID"),
        ("discord", "{}", "Missing webhook URL"),
        ("email", "{}", "Missing SMTP host"),
        ("email", "{\"smtpHost\":\"h\",\"smtpPort\":\"25\"}", "Missing SMTP port"),
        ("email", "{\"smtpHost\":\"h\",\"smtpPort\":25}", "Missing SMTP user"),
        ("email", "{\"smtpHost\":\"h\",\"smtpPort\":25,\"smtpUser\":\"u\"}", "Missing SMTP password"),
        (
            "email",
            "{\"smtpHost\":\"h\",\"smtpPort\":25,\"smtpUser\":\"u\",\"smtpPass\":\"p\"}",
            "Missing recipient email",
        ),
        ("pager", "{}", "Invalid notification type"),
    ];
    for (kind, config, want) in cases {
        match svc.send_notification(&channel(kind, config), "m", None, None) {
            Err(AppError::BadRequest(m)) => assert_eq!(m, want),
            other => panic!("unexpected {:?}", other),
        }
    }
}

#[test]
fn email_completes_without_a_call() {
    let svc = NotificationService::new();
    let n = channel(
        "email",
        "{\"smtpHost\":\"h\",\"smtpPort\":25,\"smtpUser\":\"u\",\"smtpPass\":\"p\",\"toEmail\":\"a@b\"}",
    );
    match svc.test_notification(&n).unwrap() {
        SendPlan::Done(m) => assert_eq!(m, "Email notification sent successfully"),
        other => panic!("unexpected {:?}", other),
    }
}

#[test]
fn test_notification_names_the_channel() {
    let svc = NotificationService::new();
    let n = channel("discord", "{\"webhookURL\":\"u\"}");
    match svc.test_notification(&n).unwrap() {
        SendPlan::Post { body, .. } => assert_eq!(body, "{\"content\":\"Test notification for ops\"}"),
        other => panic!("unexpected {:?}", other),
    }
}

#[test]
fn provider_answers() {
    let t = get_provider("telegram").unwrap();
    assert_eq!(t.finish(200, "").unwrap(), "Telegram notification sent successfully");
    match t.finish(401, "bad token") {
        Err(AppError::UpstreamFailure(m)) => assert_eq!(m, "Telegram API error: bad token"),
        other => panic!("unexpected {:?}", other),
    }
    let d = get_provider("discord").unwrap();
    assert_eq!(d.finish(204, "").unwrap(), "Discord notification sent successfully");
    assert!(d.finish(500, "x").is_err());
}

#[test]
fn one_failing_channel_does_not_stop_others() {
    let svc = NotificationService::new();
    let channels = vec![
        channel("discord", "{}"),
        channel("discord", "{\"webhookURL\":\"u\"}"),
        channel("nope", "{}"),
    ];
    let out = svc.send_all(&channels, "down", None, None);
    assert_eq!(out.len(), 3);
    assert!(out[0].is_err());
    assert!(out[1].is_ok());
    assert!(out[2].is_err());
}

#[test]
fn service_validates_type_on_write() {
    let mut store = MonitorStore::new();
    let svc = NotificationService::new();
    let bad = NotificationConfig {
        name: "x".to_string(),
        type_: "fax".to_string(),
        is_default: false,
        provider_config: "{}".to_string(),
    };
    assert!(matches!(svc.create_notification(&mut store, 1, bad, 0), Err(AppError::BadRequest(_))));
    assert_eq!(svc.get_user_notifications(&store, 1).len(), 0);
    let good = NotificationConfig {
        name: "x".to_string(),
        type_: "email".to_string(),
        is_default: true,
        provider_config: "{}".to_string(),
    };
    let n = svc.create_notification(&mut store, 1, good, 0).unwrap();
    assert!(svc.get_notification(&store, n.id, 1).unwrap().is_default);
    assert!(svc.delete_notification(&mut store, n.id, 1));
    assert!(svc.get_monitor_notifications(&store, 1).is_empty());
}
