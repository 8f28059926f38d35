use wikify_web::jwt::{bearer_token, AuthError, Claims, JwtService, TokenPair, TokenType, ACCESS_TOKEN_SECS, REFRESH_TOKEN_SECS};
use wikify_web::permissions::Permission;

#[test]
fn access_claims_carry_the_user() {
    let c = Claims::new_access_token(
        "u1".to_string(),
        Some("Ann".to_string()),
        None,
        vec![Permission::Query, Permission::Admin],
        true,
        1_000,
    );
    assert_eq!(c.sub, "u1");
    assert_eq!(c.permissions, vec!["Query".to_string(), "Admin".to_string()]);
    assert_eq!(c.iat, 1_000);
    assert_eq!(c.exp, 1_000 + ACCESS_TOKEN_SECS);
    assert_eq!(c.token_type, TokenType::Access);
    let user = c.to_user().unwrap();
    assert_eq!(user.id, "u1");
    assert_eq!(user.permissions, vec![Permission::Query, Permission::Admin]);
    assert!(user.is_admin);
}

#[test]
fn refresh_claims_do_not_make_a_user() {
    let c = Claims::new_refresh_token("u1".to_string(), 5);
    assert_eq!(c.exp, 5 + REFRESH_TOKEN_SECS);
    assert_eq!(c.to_user().err(), Some(AuthError::InvalidTokenType));
    assert!(JwtService::check_refresh_claims(&c).is_ok());
}

#[test]
fn unknown_permission_name_is_refused() {
    let mut c = Claims::new_access_token("u".to_string(), None, None, vec![], false, 0);
    c.permissions.push("Fly".to_string());
    assert_eq!(c.to_user().err(), Some(AuthError::InvalidPermissions));
}

#[test]
fn expiry_is_strict() {
    let c = Claims::new_access_token("u".to_string(), None, None, vec![], false, 0);
    assert!(!c.is_expired(ACCESS_TOKEN_SECS));
    assert!(c.is_expired(ACCESS_TOKEN_SECS + 1));
    let c2 = Claims::new_access_token("u".to_string(), None, None, vec![], false, 0);
    assert_eq!(JwtService::accept_claims(c2, ACCESS_TOKEN_SECS + 1).err(), Some(AuthError::TokenExpired));
}

#[test]
fn token_pair_and_header() {
    let pair = TokenPair::new("a".to_string(), "r".to_string());
    assert_eq!(pair.access_token, "a");
    let (access, refresh) = JwtService::token_pair_claims("u".to_string(), None, None, vec![], false, 10);
    assert_eq!(access.token_type, TokenType::Access);
    assert_eq!(refresh.token_type, TokenType::Refresh);
    assert_eq!(JwtService::check_refresh_claims(&access).err(), Some(AuthError::InvalidTokenType));
    assert_eq!(bearer_token(Some("Bearer xyz")).unwrap(), "xyz");
    assert_eq!(bearer_token(None).err(), Some(AuthError::MissingAuthHeader));
    assert_eq!(bearer_token(Some("Basic xyz")).err(), Some(AuthError::InvalidToken));
}

#[test]
fn error_replies() {
    assert_eq!(AuthError::InvalidCredentials.status_code(), 401);
    assert_eq!(AuthError::MissingCredentials.status_code(), 400);
    assert_eq!(AuthError::TokenCreation.error_code(), "token_creation_failed");
    assert_eq!(AuthError::MissingAuthHeader.message(), "Authorization header is required");
    assert_eq!(AuthError::TokenExpired.to_text(), "Token expired");
}
