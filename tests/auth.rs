use kuma_events::auth::{bearer_token, is_public_path, AuthService};
use kuma_events::model::{AppError, CreateUser, LoginUser, User};
use kuma_events::store::MonitorStore;
use kuma_events::text::{decimal_string, str_eq};

fn ann(store: &mut MonitorStore) {
    let input = CreateUser {
        username: "ann".to_string(),
        password: "secret".to_string(),
        email: Some("ann@example.com".to_string()),
    };
    AuthService::new().register(store, input, 50).unwrap();
}

fn user(hash: &str) -> User {
    User {
        id: 8,
        username: "ann".to_string(),
        password_hash: hash.to_string(),
        email: None,
        created_at: 0,
        updated_at: 0,
    }
}

#[test]
fn public_paths() {
    assert!(is_public_path("/"));
    assert!(is_public_path("/api/status"));
    assert!(is_public_path("/api/auth/login"));
    assert!(!is_public_path("/api/monitors"));
    assert!(!is_public_path("/api/statusx"));
}

#[test]
fn bearer_header() {
    assert_eq!(bearer_token(Some("Bearer abc.def")).unwrap(), "abc.def");
    assert!(matches!(bearer_token(Some("Basic abc")), Err(AppError::Unauthorized)));
    assert!(matches!(bearer_token(None), Err(AppError::Unauthorized)));
}

#[test]
fn login_checks_the_password() {
    let mut store = MonitorStore::new();
    ann(&mut store);
    let svc = AuthService::new();
    let ok = LoginUser { username: "ann".to_string(), password: "secret".to_string() };
    let claims = svc.login(&store, &ok, 1000).unwrap();
    assert_eq!(claims.username, "ann");
    assert_eq!(claims.exp, 1000 + 86400);
    let found = User::find_by_username(&store, "ann").unwrap();
    assert_eq!(claims.sub, found.id);
    assert_ne!(found.password_hash, "secret");
    let bad = LoginUser { username: "ann".to_string(), password: "guess".to_string() };
    assert!(matches!(svc.login(&store, &bad, 1000), Err(AppError::InvalidCredentials)));
    let nobody = LoginUser { username: "bob".to_string(), password: "secret".to_string() };
    assert!(matches!(svc.login(&store, &nobody, 1000), Err(AppError::InvalidCredentials)));
}

#[test]
fn password_check_uses_the_hash() {
    let hash = bcrypt::hash("pw", 4).unwrap();
    assert!(user(&hash).verify_password("pw"));
    assert!(!user(&hash).verify_password("pw2"));
    assert!(!user("not a hash").verify_password("pw"));
}

#[test]
fn register_refuses_taken_names() {
    let mut store = MonitorStore::new();
    ann(&mut store);
    let again = CreateUser { username: "ann".to_string(), password: "x".to_string(), email: None };
    assert!(matches!(
        AuthService::new().register(&mut store, again, 60),
        Err(AppError::UsernameTaken)
    ));
    let bob = CreateUser { username: "bob".to_string(), password: "x".to_string(), email: None };
    let u = AuthService::new().register(&mut store, bob, 60).unwrap();
    assert_eq!(u.username, "bob");
    assert_eq!(u.created_at, 60);
    assert!(User::find_by_username(&store, "bob").is_some());
    assert!(User::find_by_username(&store, "carl").is_none());
}

#[test]
fn decimal_spelling() {
    assert_eq!(decimal_string(0), "0");
    assert_eq!(decimal_string(7), "7");
    assert_eq!(decimal_string(503), "503");
    assert_eq!(decimal_string(18446744073709551615), "18446744073709551615");
    assert!(str_eq("ab", "ab"));
    assert!(!str_eq("ab", "abc"));
}
