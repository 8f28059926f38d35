use wikify_web::auth::{
    anonymous_context_for, authenticate_from_headers, permission_context_for, require_admin,
    require_permission, require_query, resolve_user, AnonymousUser, PermissionContext,
    PermissionDenied, User,
};
use wikify_web::permissions::Permission;

#[test]
fn test_user_extraction_with_api_key() {
    let result = resolve_user(None, Some("test-api-key"), None);

    assert!(result.is_some());
    let user = result.unwrap();
    assert!(user.id.starts_with("api_user_"));
    assert!(user.has_permission(&Permission::Admin));
}

#[test]
fn test_user_extraction_with_user_id() {
    let result = resolve_user(None, None, Some("test-user-123"));

    assert!(result.is_some());
    let user = result.unwrap();
    assert_eq!(user.id, "test-user-123");
    assert!(user.has_permission(&Permission::Query));
    assert!(user.has_permission(&Permission::GenerateWiki));
}

#[test]
fn test_user_extraction_with_bearer_token() {
    let result = resolve_user(None, Some("Bearer test-bearer-token"), None);

    assert!(result.is_some());
    let user = result.unwrap();
    assert!(user.id.starts_with("api_user_"));
    assert!(user.has_permission(&Permission::Admin));
}

#[test]
fn test_user_extraction_without_auth() {
    let result = resolve_user(None, None, None);

    assert!(result.is_none());
}

#[test]
fn test_optional_user_extraction_without_auth() {
    let maybe_user = authenticate_from_headers(None, None);
    assert!(maybe_user.is_none());
}

#[test]
fn test_optional_user_extraction_with_auth() {
    let maybe_user = authenticate_from_headers(Some("test-key"), None);
    assert!(maybe_user.is_some());
    let user = maybe_user.unwrap();
    assert!(user.has_permission(&Permission::Admin));
}

#[test]
fn test_require_query_with_authenticated_user() {
    let result = require_query(authenticate_from_headers(None, Some("test-user")));

    assert!(result.is_ok());
    let user = result.unwrap();
    assert_eq!(user.id, "test-user");
    assert!(user.has_permission(&Permission::Query));
}

#[test]
fn test_require_query_with_anonymous_user() {
    let result = require_query(authenticate_from_headers(None, None));

    assert!(result.is_ok());
    let user = result.unwrap();
    assert_eq!(user.id, "anonymous");
    assert!(user.has_permission(&Permission::Query));
}

#[test]
fn test_require_generate_wiki_with_auth() {
    let user = resolve_user(None, None, Some("test-user")).unwrap();
    let result = require_permission(user, Permission::GenerateWiki);

    assert!(result.is_ok());
    let user = result.unwrap();
    assert!(user.has_permission(&Permission::GenerateWiki));
}

#[test]
fn test_require_generate_wiki_without_auth() {
    let result = resolve_user(None, None, None);

    assert!(result.is_none());
}

#[test]
fn test_admin_user_with_admin_permissions() {
    let user = resolve_user(None, Some("admin-key"), None).unwrap();
    let result = require_admin(user);

    assert!(result.is_ok());
    let user = result.unwrap();
    assert!(user.is_admin);
    assert!(user.has_permission(&Permission::Admin));
}

#[test]
fn test_admin_user_without_admin_permissions() {
    let user = resolve_user(None, None, Some("regular-user")).unwrap();
    let result = require_admin(user);

    assert!(result.is_err());
}

#[test]
fn test_user_permission_context_conversion() {
    let user = User::new(
        "test-user".to_string(),
        Some("Test User".to_string()),
        vec![Permission::Query, Permission::GenerateWiki],
    );

    let context = user.to_permission_context();
    match context {
        PermissionContext::User(identity) => {
            assert_eq!(identity.user_id, "test-user");
            assert_eq!(identity.display_name, Some("Test User".to_string()));
            assert_eq!(identity.email, None);
        }
        _ => panic!("expected a user context"),
    }
}

#[test]
fn test_anonymous_user_permission_context() {
    let anonymous = AnonymousUser;
    let context = anonymous.to_permission_context();
    assert!(matches!(context, PermissionContext::Anonymous(ps) if ps == vec![Permission::Query]));
}

#[test]
fn test_admin_permission_inheritance() {
    let admin_user = User::new(
        "admin-user".to_string(),
        Some("Admin User".to_string()),
        vec![Permission::Admin],
    );

    assert!(admin_user.has_permission(&Permission::Query));
    assert!(admin_user.has_permission(&Permission::GenerateWiki));
    assert!(admin_user.has_permission(&Permission::DeepResearch));
    assert!(admin_user.has_permission(&Permission::Export));
    assert!(admin_user.has_permission(&Permission::ManageRepository));
    assert!(admin_user.has_permission(&Permission::Admin));
    assert!(admin_user.is_admin);
}

#[test]
fn test_regular_user_no_inheritance() {
    let regular_user = User::new(
        "regular-user".to_string(),
        Some("Regular User".to_string()),
        vec![Permission::Query, Permission::GenerateWiki],
    );

    assert!(regular_user.has_permission(&Permission::Query));
    assert!(regular_user.has_permission(&Permission::GenerateWiki));

    assert!(!regular_user.has_permission(&Permission::DeepResearch));
    assert!(!regular_user.has_permission(&Permission::Export));
    assert!(!regular_user.has_permission(&Permission::ManageRepository));
    assert!(!regular_user.has_permission(&Permission::Admin));
    assert!(!regular_user.is_admin);
}

#[test]
fn api_user_id_takes_first_eight_bytes() {
    let user = authenticate_from_headers(Some("abcdefghijkl"), None).unwrap();
    assert_eq!(user.id, "api_user_abcdefgh");
    assert_eq!(user.display_name, Some("API User".to_string()));
    let short = authenticate_from_headers(Some("abc"), None).unwrap();
    assert_eq!(short.id, "api_user_abc");
}

#[test]
fn empty_api_key_falls_back_to_user_header() {
    let user = authenticate_from_headers(Some("Bearer "), Some("bob")).unwrap();
    assert_eq!(user.id, "bob");
    assert_eq!(user.display_name, Some("Header User".to_string()));
    assert!(!user.is_admin);
}

#[test]
fn token_user_wins() {
    let token_user = User::new("tok".to_string(), None, vec![Permission::Export]);
    let user = resolve_user(Some(token_user), Some("key"), Some("bob")).unwrap();
    assert_eq!(user.id, "tok");
}

#[test]
fn denial_names_permission_and_user() {
    let user = User::new("u".to_string(), None, vec![Permission::Query]);
    let denied: PermissionDenied = require_permission(user, Permission::Export).err().unwrap();
    assert_eq!(denied.required_permission, "Export");
    assert_eq!(denied.user_id, Some("u".to_string()));
    assert_eq!(denied.status_code(), 403);
    assert_eq!(denied.message(), "User 'u' does not have required permission: Export");
    assert_eq!(PermissionDenied::new("Admin", None).message(), "Required permission: Admin");
}

#[test]
fn contexts_by_mode() {
    assert!(matches!(permission_context_for(None, Some("a"), None, None), PermissionContext::Open));
    assert!(matches!(permission_context_for(Some("local"), None, None, None), PermissionContext::Local));
    match permission_context_for(Some("restricted"), Some("a"), Some("A"), Some("a@x")) {
        PermissionContext::User(identity) => {
            assert_eq!(identity.user_id, "a");
            assert_eq!(identity.display_name, Some("A".to_string()));
            assert_eq!(identity.email, Some("a@x".to_string()));
        }
        _ => panic!("expected a user context"),
    }
    assert!(matches!(
        permission_context_for(Some("restricted"), None, None, None),
        PermissionContext::Anonymous(ps) if ps == vec![Permission::Query]
    ));
    assert!(matches!(anonymous_context_for(Some("restricted")), PermissionContext::Anonymous(_)));
    assert!(matches!(anonymous_context_for(Some("open")), PermissionContext::Open));
}
