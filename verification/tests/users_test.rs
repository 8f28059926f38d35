use wikify_web::jwt::AuthError;
use wikify_web::permissions::Permission;
use wikify_web::users::{LoginRequest, MemoryUserStore, RegisterRequest};

fn register(store: &mut MemoryUserStore, username: &str, email: &str, password: &str) -> Result<wikify_web::users::UserData, AuthError> {
    store.register_user(RegisterRequest {
        username: username.to_string(),
        email: email.to_string(),
        password: password.to_string(),
        display_name: None,
    })
}

fn login(store: &MemoryUserStore, username: &str, password: &str) -> Result<wikify_web::users::UserData, AuthError> {
    store.authenticate_user(LoginRequest { username: username.to_string(), password: password.to_string() })
}

#[test]
fn test_default_admin_login() {
    let store = MemoryUserStore::memory();
    let admin = login(&store, "admin", "admin123").expect("admin logs in");
    assert_eq!(admin.username, "admin");
    assert_eq!(admin.email, "admin@wikify.local");
    assert!(admin.is_admin);
    assert_eq!(admin.permissions, vec![Permission::Admin]);
}

#[test]
fn test_default_admin_user_creation() {
    let store = MemoryUserStore::memory();
    let admin = store.get_user_by_username("admin").expect("admin exists");
    assert_eq!(admin.display_name, Some("Administrator".to_string()));
    assert_ne!(admin.password_hash, "admin123");
    let by_id = store.get_user_by_id(&admin.id).expect("found by id");
    assert_eq!(by_id.username, "admin");
}

#[test]
fn registered_user_can_log_in() {
    let mut store = MemoryUserStore::empty();
    let user = register(&mut store, "testuser", "test@example.com", "password123").expect("registered");
    assert_eq!(user.permissions, vec![Permission::Query, Permission::GenerateWiki]);
    assert!(!user.is_admin);
    let back = login(&store, "testuser", "password123").expect("logs in");
    assert_eq!(back.id, user.id);
}

#[test]
fn wrong_credentials_are_refused() {
    let mut store = MemoryUserStore::empty();
    register(&mut store, "logintest", "login@example.com", "password123").unwrap();
    assert_eq!(login(&store, "logintest", "wrongpassword").err(), Some(AuthError::InvalidCredentials));
    assert_eq!(login(&store, "nonexistent", "wrongpassword").err(), Some(AuthError::InvalidCredentials));
}

#[test]
fn registration_refusals() {
    let mut store = MemoryUserStore::empty();
    assert_eq!(register(&mut store, "", "a@x", "password").err(), Some(AuthError::MissingCredentials));
    assert_eq!(register(&mut store, "a", "a@x", "12345").err(), Some(AuthError::InvalidCredentials));
    register(&mut store, "a", "a@x", "123456").unwrap();
    assert_eq!(register(&mut store, "a", "b@x", "123456").err(), Some(AuthError::InvalidCredentials));
    assert_eq!(register(&mut store, "b", "a@x", "123456").err(), Some(AuthError::InvalidCredentials));
    assert!(store.get_user_by_username("b").is_none());
}

#[test]
fn password_length_counts_bytes() {
    let mut store = MemoryUserStore::empty();
    // three characters, six bytes
    assert!(register(&mut store, "u", "u@x", "ééé").is_ok());
}

#[test]
fn user_info_lists_permission_names() {
    let store = MemoryUserStore::memory();
    let admin = store.get_user_by_username("admin").unwrap();
    let info = admin.to_user_info();
    assert_eq!(info.permissions, vec!["Admin".to_string()]);
    assert_eq!(info.id, admin.id);
    assert!(admin.verify_password("admin123"));
    assert!(!admin.verify_password("admin124"));
}

#[test]
fn handlers_test_user_registration() {
    let mut store = MemoryUserStore::memory();
    let user = store
        .register_user(RegisterRequest {
            username: "testuser".to_string(),
            email: "test@example.com".to_string(),
            password: "password123".to_string(),
            display_name: Some("Test User".to_string()),
        })
        .expect("registration succeeds");
    assert_eq!(user.display_name, Some("Test User".to_string()));
}

#[test]
fn test_user_login() {
    let mut store = MemoryUserStore::memory();
    register(&mut store, "logintest", "login@example.com", "password123").expect("registered");
    let user = login(&store, "logintest", "password123").expect("login succeeds");
    assert_eq!(user.username, "logintest");
}

#[test]
fn test_invalid_login() {
    let store = MemoryUserStore::memory();
    let err = login(&store, "nonexistent", "wrongpassword").err().expect("refused");
    assert_eq!(err, AuthError::InvalidCredentials);
    assert_eq!(err.status_code(), 401);
}

#[test]
fn auth_system_test_test_user_registration() {
    let mut store = MemoryUserStore::memory();
    let user = store
        .register_user(RegisterRequest {
            username: "newuser123".to_string(),
            email: "newuser@example.com".to_string(),
            password: "password123".to_string(),
            display_name: Some("New Test User".to_string()),
        })
        .expect("registration succeeds");
    let info = user.to_user_info();
    assert_eq!(info.username, "newuser123");
    assert_eq!(info.email, "newuser@example.com");
    assert_eq!(info.display_name, Some("New Test User".to_string()));
    assert!(!info.is_admin);
    let (access, refresh) = wikify_web::jwt::JwtService::token_pair_claims(
        user.id.clone(),
        user.display_name.clone(),
        Some(user.email.clone()),
        user.permissions.clone(),
        user.is_admin,
        1_700_000_000,
    );
    assert_eq!(access.sub, user.id);
    assert_eq!(refresh.sub, user.id);
    assert_eq!(access.token_type, wikify_web::jwt::TokenType::Access);
    assert_eq!(refresh.token_type, wikify_web::jwt::TokenType::Refresh);
}

#[test]
fn account_record_round_trip() {
    let store = MemoryUserStore::memory();
    let admin = store.get_user_by_username("admin").expect("admin exists");
    let record = wikify_web::users::UserRecord::from_user_data(&admin);
    assert_eq!(record.permissions, "[\"Admin\"]");
    assert!(record.created_at.ends_with("+00:00"));
    let back = record.to_user_data().expect("reads back");
    assert_eq!(back.id, admin.id);
    assert_eq!(back.username, admin.username);
    assert_eq!(back.permissions, admin.permissions);
    assert_eq!(back.created_at, admin.created_at);
    assert_eq!(back.password_hash, admin.password_hash);
}

#[test]
fn unreadable_records_are_refused() {
    let store = MemoryUserStore::memory();
    let admin = store.get_user_by_username("admin").expect("admin exists");
    let mut record = wikify_web::users::UserRecord::from_user_data(&admin);
    record.permissions = "[\"Fly\"]".to_string();
    assert_eq!(record.to_user_data().err(), Some(AuthError::InvalidPermissions));
    record.permissions = "not json".to_string();
    assert_eq!(record.to_user_data().err(), Some(AuthError::InvalidPermissions));
    record.permissions = "[]".to_string();
    record.created_at = "yesterday".to_string();
    assert_eq!(record.to_user_data().err(), Some(AuthError::InvalidToken));
    record.created_at = "2024-05-01T12:30:00+02:00".to_string();
    let u = record.to_user_data().expect("reads");
    assert_eq!(u.created_at.secs, 1_714_559_400);
}

#[test]
fn stored_accounts_refuse_taken_names_and_addresses() {
    use_refusals();
}

fn use_refusals() {

    assert_eq!(wikify_web::users::stored_account_refusal(false, false), None);
    assert_eq!(wikify_web::users::stored_account_refusal(true, false), Some(AuthError::InvalidCredentials));
    assert_eq!(wikify_web::users::stored_account_refusal(false, true), Some(AuthError::InvalidCredentials));
    assert_eq!(wikify_web::users::stored_account_refusal(true, true), Some(AuthError::InvalidCredentials));
}
