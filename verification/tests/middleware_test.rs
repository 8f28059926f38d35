use wikify_web::api_keys::ApiKeyError;
use wikify_web::middleware::{
    auth_after_api_key, auth_after_token, auth_after_user_lookup, auth_start, parse_authorization,
    AuthStep, Credential, UserContext,
};
use wikify_web::permissions::Permission;
use wikify_web::time::Timestamp;
use wikify_web::users::UserData;

#[test]
fn test_default_user_context() {
    let context = UserContext::from_request(None, None, None);

    assert_eq!(context.user_id, "default");
    assert!(context.is_default_user());
    assert_eq!(context.display_name(), "Default User");
}

#[test]
fn test_user_context_from_header() {
    let context = UserContext::from_request(Some("john_doe"), Some("John Doe"), None);

    assert_eq!(context.user_id, "john_doe");
    assert!(!context.is_default_user());
    assert_eq!(context.display_name(), "John Doe");
}

#[test]
fn test_user_context_from_cookie() {
    let context =
        UserContext::from_request(None, None, Some("wikify_user_id=jane_doe; other_cookie=value"));

    assert_eq!(context.user_id, "jane_doe");
    assert!(!context.is_default_user());
}

#[test]
fn test_extract_user_from_cookie() {
    let cookie_str = "session_id=abc123; wikify_user_id=test_user; theme=dark";
    let user_id = UserContext::extract_user_from_cookie(cookie_str);

    assert_eq!(user_id, Some("test_user".to_string()));
}

#[test]
fn test_extract_user_from_cookie_not_found() {
    let cookie_str = "session_id=abc123; theme=dark";
    let user_id = UserContext::extract_user_from_cookie(cookie_str);

    assert_eq!(user_id, None);
}

#[test]
fn cookie_first_match_wins_and_is_trimmed() {
    let cookie = "  wikify_user_id=first ;wikify_user_id=second";
    assert_eq!(UserContext::extract_user_from_cookie(cookie), Some("first".to_string()));
    assert_eq!(UserContext::extract_user_from_cookie("wikify_user_id="), Some(String::new()));
    assert_eq!(UserContext::extract_user_from_cookie(""), None);
}

#[test]
fn header_wins_over_cookie() {
    let context = UserContext::from_request(Some("alice"), None, Some("wikify_user_id=bob"));
    assert_eq!(context.user_id, "alice");
    assert_eq!(context.display_name, None);
    assert_eq!(context.display_name(), "alice");
}

#[test]
fn cookie_without_user_falls_back_to_default() {
    let context = UserContext::from_request(None, None, Some("theme=dark"));
    assert_eq!(context.user_id, "default");
    assert_eq!(context.display_name, Some("Default User".to_string()));
}

#[test]
fn authorization_header_forms() {
    assert!(matches!(parse_authorization(Some("Bearer abc")), Some(Credential::Bearer(t)) if t == "abc"));
    assert!(matches!(parse_authorization(Some("ApiKey k1")), Some(Credential::ApiKey(k)) if k == "k1"));
    assert!(parse_authorization(Some("Basic xyz")).is_none());
    assert!(parse_authorization(Some("bearer abc")).is_none());
    assert!(parse_authorization(None).is_none());
}

#[test]
fn open_mode_lets_everything_through() {
    assert!(matches!(auth_start(&None, None), AuthStep::Pass));
    assert!(matches!(auth_start(&Some("open".to_string()), None), AuthStep::Pass));
}

#[test]
fn restricted_mode_needs_credentials() {
    let mode = Some("restricted".to_string());
    assert!(matches!(auth_start(&mode, None), AuthStep::Unauthorized));
    assert!(matches!(auth_start(&mode, Some("Token x")), AuthStep::Unauthorized));
    assert!(matches!(auth_start(&mode, Some("Bearer tok")), AuthStep::VerifyToken(t) if t == "tok"));
    assert!(matches!(auth_start(&mode, Some("ApiKey key")), AuthStep::CheckApiKey(k) if k == "key"));
}

#[test]
fn invalid_token_is_tried_as_api_key() {
    assert!(matches!(auth_after_token("tok".to_string(), None), AuthStep::CheckApiKey(k) if k == "tok"));
    assert!(matches!(
        auth_after_token("tok".to_string(), Some("user-1".to_string())),
        AuthStep::LookupUser(u) if u == "user-1"
    ));
}

fn account(id: &str, permissions: Vec<Permission>) -> UserData {
    UserData {
        id: id.to_string(),
        username: "name".to_string(),
        email: "e@x".to_string(),
        display_name: Some("Shown".to_string()),
        password_hash: String::new(),
        permissions,
        is_admin: false,
        created_at: Timestamp { secs: 0, nanos: 0 },
    }
}

#[test]
fn looked_up_account_is_admitted() {
    match auth_after_user_lookup(Some(account("u1", vec![Permission::Admin]))) {
        AuthStep::Admit(user) => {
            assert_eq!(user.id, "u1");
            assert_eq!(user.display_name, Some("Shown".to_string()));
            assert!(user.is_admin);
        }
        _ => panic!("expected admission"),
    }
    assert!(matches!(auth_after_user_lookup(None), AuthStep::Unauthorized));
}

#[test]
fn api_key_outcomes() {
    assert!(matches!(auth_after_api_key(Ok(Some(account("k", vec![Permission::Query])))), AuthStep::Admit(u) if !u.is_admin));
    assert!(matches!(auth_after_api_key(Ok(None)), AuthStep::Unauthorized));
    assert!(matches!(auth_after_api_key(Err(ApiKeyError::Expired)), AuthStep::Unauthorized));
}

#[test]
fn test_unauthenticated_endpoint_access() {
    let config = wikify_web::config::WebConfig::default();
    assert!(matches!(auth_start(&config.permission_mode, None), AuthStep::Unauthorized));
    assert!(matches!(auth_start(&config.permission_mode, Some("Bearer tok")), AuthStep::VerifyToken(t) if t == "tok"));
}
