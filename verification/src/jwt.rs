//! Token claims, token pairs and authentication errors.
//!
//! Claims carry their times as Unix timestamps in seconds.  Signing and
//! checking the signature of a token (JSON Web Token, HS256) is the web
//! layer's part; this module builds the claims that are signed and decides
//! what a token that was read back stands for.

use vstd::prelude::*;
use crate::auth::User;
use crate::permissions::{names_of, parse_all, parse_permission, permission_name, Permission};
use crate::strings::{clone_opt, owned};
use crate::time::MAX_UTC_SECS;

verus! {

/// How long an access token lives: one hour.
pub const ACCESS_TOKEN_SECS: i64 = 3600;

/// How long a refresh token lives: thirty days.
pub const REFRESH_TOKEN_SECS: i64 = 30 * 86_400;

/// Token type enumeration.
#[derive(Clone, Copy, Debug, PartialEq, Eq, Structural)]
pub enum TokenType {
    Access,
    Refresh,
}

/// JWT claims structure.
#[derive(Debug)]
pub struct Claims {
    /// Subject (user ID)
    pub sub: String,
    /// User display name
    pub name: Option<String>,
    /// User email
    pub email: Option<String>,
    /// User permissions
    pub permissions: Vec<String>,
    /// Is admin user
    pub is_admin: bool,
    /// Issued at (timestamp)
    pub iat: i64,
    /// Expiration time (timestamp)
    pub exp: i64,
    /// Token type (access or refresh)
    pub token_type: TokenType,
}

/// JWT authentication errors.
#[derive(Clone, Copy, Debug, PartialEq, Eq, Structural)]
pub enum AuthError {
    InvalidCredentials,
    MissingCredentials,
    TokenCreation,
    InvalidToken,
    TokenExpired,
    InvalidTokenType,
    InvalidPermissions,
    MissingAuthHeader,
}

/// The HTTP status, error code and message an error is answered with.
pub open spec fn auth_error_reply(e: AuthError) -> (u16, Seq<char>, Seq<char>) {
    match e {
        AuthError::InvalidCredentials => (401, "invalid_credentials"@, "Invalid username or password"@),
        AuthError::MissingCredentials => (
            400,
            "missing_credentials"@,
            "Username and password are required"@,
        ),
        AuthError::TokenCreation => (
            500,
            "token_creation_failed"@,
            "Failed to create authentication token"@,
        ),
        AuthError::InvalidToken => (401, "invalid_token"@, "Invalid or malformed token"@),
        AuthError::TokenExpired => (401, "token_expired"@, "Token has expired"@),
        AuthError::InvalidTokenType => (
            401,
            "invalid_token_type"@,
            "Invalid token type for this operation"@,
        ),
        AuthError::InvalidPermissions => (500, "invalid_permissions"@, "Invalid permission format"@),
        AuthError::MissingAuthHeader => (
            401,
            "missing_auth_header"@,
            "Authorization header is required"@,
        ),
    }
}

/// The display text of an error.
pub open spec fn auth_error_text(e: AuthError) -> Seq<char> {
    match e {
        AuthError::InvalidCredentials => "Invalid credentials"@,
        AuthError::MissingCredentials => "Missing credentials"@,
        AuthError::TokenCreation => "Token creation failed"@,
        AuthError::InvalidToken => "Invalid token"@,
        AuthError::TokenExpired => "Token expired"@,
        AuthError::InvalidTokenType => "Invalid token type"@,
        AuthError::InvalidPermissions => "Invalid permissions"@,
        AuthError::MissingAuthHeader => "Missing authorization header"@,
    }
}

impl AuthError {
    /// The HTTP status of the reply to this error.
    pub fn status_code(&self) -> (s: u16)
        ensures
            s == auth_error_reply(*self).0,
    {
        match self {
            AuthError::InvalidCredentials => 401,
            AuthError::MissingCredentials => 400,
            AuthError::TokenCreation => 500,
            AuthError::InvalidToken => 401,
            AuthError::TokenExpired => 401,
            AuthError::InvalidTokenType => 401,
            AuthError::InvalidPermissions => 500,
            AuthError::MissingAuthHeader => 401,
        }
    }

    /// The machine-readable code of the reply to this error.
    pub fn error_code(&self) -> (c: &'static str)
        ensures
            c@ == auth_error_reply(*self).1,
    {
        match self {
            AuthError::InvalidCredentials => "invalid_credentials",
            AuthError::MissingCredentials => "missing_credentials",
            AuthError::TokenCreation => "token_creation_failed",
            AuthError::InvalidToken => "invalid_token",
            AuthError::TokenExpired => "token_expired",
            AuthError::InvalidTokenType => "invalid_token_type",
            AuthError::InvalidPermissions => "invalid_permissions",
            AuthError::MissingAuthHeader => "missing_auth_header",
        }
    }

    /// The human-readable message of the reply to this error.
    pub fn message(&self) -> (m: &'static str)
        ensures
            m@ == auth_error_reply(*self).2,
    {
        match self {
            AuthError::InvalidCredentials => "Invalid username or password",
            AuthError::MissingCredentials => "Username and password are required",
            AuthError::TokenCreation => "Failed to create authentication token",
            AuthError::InvalidToken => "Invalid or malformed token",
            AuthError::TokenExpired => "Token has expired",
            AuthError::InvalidTokenType => "Invalid token type for this operation",
            AuthError::InvalidPermissions => "Invalid permission format",
            AuthError::MissingAuthHeader => "Authorization header is required",
        }
    }

    /// The display text of the error.
    pub fn to_text(&self) -> (t: &'static str)
        ensures
            t@ == auth_error_text(*self),
    {
        match self {
            AuthError::InvalidCredentials => "Invalid credentials",
            AuthError::MissingCredentials => "Missing credentials",
            AuthError::TokenCreation => "Token creation failed",
            AuthError::InvalidToken => "Invalid token",
            AuthError::TokenExpired => "Token expired",
            AuthError::InvalidTokenType => "Invalid token type",
            AuthError::InvalidPermissions => "Invalid permissions",
            AuthError::MissingAuthHeader => "Missing authorization header",
        }
    }
}

/// The claims `to_user` accepts: access claims whose permission names all
/// name permissions.
pub open spec fn claims_user_ok(token_type: TokenType, names: Seq<Seq<char>>) -> bool {
    token_type == TokenType::Access && forall|i: int|
        0 <= i < names.len() ==> parse_permission(#[trigger] names[i]) is Some
}

impl Claims {
    /// The view of the permission names.
    pub open spec fn permission_names(&self) -> Seq<Seq<char>> {
        self.permissions@.map_values(|s: String| s@)
    }

    /// Claims of an access token for a user, issued at `now` and valid for
    /// one hour.
    pub fn new_access_token(
        user_id: String,
        name: Option<String>,
        email: Option<String>,
        permissions: Vec<Permission>,
        is_admin: bool,
        now: i64,
    ) -> (c: Self)
        requires
            now <= MAX_UTC_SECS - ACCESS_TOKEN_SECS,
        ensures
            c.sub == user_id,
            c.name == name,
            c.email == email,
            c.permissions@.len() == permissions@.len(),
            forall|i: int|
                0 <= i < permissions@.len() ==> (#[trigger] c.permissions@[i])@ == permission_name(
                    permissions@[i],
                ),
            c.is_admin == is_admin,
            c.iat == now,
            c.exp == now + ACCESS_TOKEN_SECS,
            c.token_type == TokenType::Access,
    {
        Claims {
            sub: user_id,
            name,
            email,
            permissions: names_of(permissions.as_slice()),
            is_admin,
            iat: now,
            exp: now + ACCESS_TOKEN_SECS,
            token_type: TokenType::Access,
        }
    }

    /// Claims of a refresh token for a user, issued at `now` and valid for
    /// thirty days; they carry no name, e-mail or permissions.
    pub fn new_refresh_token(user_id: String, now: i64) -> (c: Self)
        requires
            now <= MAX_UTC_SECS - REFRESH_TOKEN_SECS,
        ensures
            c.sub == user_id,
            c.name is None,
            c.email is None,
            c.permissions@.len() == 0,
            !c.is_admin,
            c.iat == now,
            c.exp == now + REFRESH_TOKEN_SECS,
            c.token_type == TokenType::Refresh,
    {
        Claims {
            sub: user_id,
            name: None,
            email: None,
            permissions: Vec::new(),
            is_admin: false,
            iat: now,
            exp: now + REFRESH_TOKEN_SECS,
            token_type: TokenType::Refresh,
        }
    }

    /// The user an access token stands for: its subject and name, with the
    /// permissions its names denote (admin exactly when they include
    /// Admin).  A refresh token is refused, and so is a permission name
    /// that names no permission.
    pub fn to_user(&self) -> (r: Result<User, AuthError>)
        ensures
            self.token_type != TokenType::Access ==> r == Err::<User, AuthError>(
                AuthError::InvalidTokenType,
            ),
            self.token_type == TokenType::Access && !claims_user_ok(
                self.token_type,
                self.permission_names(),
            ) ==> r == Err::<User, AuthError>(AuthError::InvalidPermissions),
            claims_user_ok(self.token_type, self.permission_names()) ==> (r matches Ok(u) && u.id
                == self.sub && u.display_name == self.name && u.permissions@.len()
                == self.permissions@.len() && (forall|i: int|
                0 <= i < u.permissions@.len() ==> parse_permission(self.permissions@[i]@) == Some(
                    #[trigger] u.permissions@[i],
                )) && u.is_admin == u.permissions@.contains(Permission::Admin)),
    {
        if self.token_type != TokenType::Access {
            return Err(AuthError::InvalidTokenType);
        }
        match parse_all(self.permissions.as_slice()) {
            Some(perms) => {
                proof {
                    assert forall|i: int| 0 <= i < self.permission_names().len() implies parse_permission(
                        #[trigger] self.permission_names()[i],
                    ) is Some by {
                        assert(self.permission_names()[i] == self.permissions@[i]@);
                    }
                }
                Ok(User::new(self.sub.clone(), clone_opt(&self.name), perms))
            },
            None => {
                proof {
                    let i = choose|i: int|
                        0 <= i < self.permissions@.len() && parse_permission(
                            #[trigger] self.permissions@[i]@,
                        ) is None;
                    assert(self.permission_names()[i] == self.permissions@[i]@);
                }
                Err(AuthError::InvalidPermissions)
            },
        }
    }

    /// Whether the token has expired at `now`.
    pub fn is_expired(&self, now: i64) -> (b: bool)
        ensures
            b == (now > self.exp),
    {
        now > self.exp
    }
}

/// JWT token pair (access + refresh).
#[derive(Debug)]
pub struct TokenPair {
    pub access_token: String,
    pub refresh_token: String,
    pub token_type: String,
    pub expires_in: i64,
}

impl TokenPair {
    /// A pair of bearer tokens; the access token lives one hour.
    pub fn new(access_token: String, refresh_token: String) -> (p: Self)
        ensures
            p.access_token == access_token,
            p.refresh_token == refresh_token,
            p.token_type@ == "Bearer"@,
            p.expires_in == 3600,
    {
        TokenPair { access_token, refresh_token, token_type: owned("Bearer"), expires_in: 3600 }
    }
}

/// JWT token utilities.
#[derive(Debug)]
pub struct JwtService;

impl JwtService {
    /// The claims of a token whose signature checked out, if the token has
    /// not expired at `now`.
    pub fn accept_claims(claims: Claims, now: i64) -> (r: Result<Claims, AuthError>)
        ensures
            now > claims.exp ==> r == Err::<Claims, AuthError>(AuthError::TokenExpired),
            now <= claims.exp ==> r == Ok::<Claims, AuthError>(claims),
    {
        if claims.is_expired(now) {
            Err(AuthError::TokenExpired)
        } else {
            Ok(claims)
        }
    }

    /// The claims of the access and refresh tokens issued together to a
    /// user at `now`.
    pub fn token_pair_claims(
        user_id: String,
        name: Option<String>,
        email: Option<String>,
        permissions: Vec<Permission>,
        is_admin: bool,
        now: i64,
    ) -> (r: (Claims, Claims))
        requires
            now <= MAX_UTC_SECS - REFRESH_TOKEN_SECS,
        ensures
            r.0.sub == user_id && r.1.sub == user_id,
            r.0.token_type == TokenType::Access && r.1.token_type == TokenType::Refresh,
            r.0.name == name && r.0.email == email && r.0.is_admin == is_admin,
            r.0.permissions@.len() == permissions@.len(),
            forall|i: int|
                0 <= i < permissions@.len() ==> (#[trigger] r.0.permissions@[i])@ == permission_name(
                    permissions@[i],
                ),
            r.0.iat == now && r.0.exp == now + ACCESS_TOKEN_SECS,
            r.1.name is None && r.1.email is None && r.1.permissions@.len() == 0 && !r.1.is_admin,
            r.1.iat == now && r.1.exp == now + REFRESH_TOKEN_SECS,
    {
        let access = Claims::new_access_token(user_id.clone(), name, email, permissions, is_admin, now);
        let refresh = Claims::new_refresh_token(user_id, now);
        (access, refresh)
    }

    /// The check a refresh makes of the claims of the token it is given:
    /// only refresh tokens may be exchanged for a new pair.
    pub fn check_refresh_claims(claims: &Claims) -> (r: Result<(), AuthError>)
        ensures
            claims.token_type == TokenType::Refresh ==> r is Ok,
            claims.token_type != TokenType::Refresh ==> r == Err::<(), AuthError>(
                AuthError::InvalidTokenType,
            ),
    {
        if claims.token_type != TokenType::Refresh {
            Err(AuthError::InvalidTokenType)
        } else {
            Ok(())
        }
    }
}

/// The bearer token of an `Authorization` header, if it has the form
/// `Bearer <token>`.
pub fn bearer_token(header: Option<&str>) -> (r: Result<String, AuthError>)
    ensures
        header is None ==> r == Err::<String, AuthError>(AuthError::MissingAuthHeader),
        header matches Some(h) ==> match r {
            Ok(t) => crate::strings::has_prefix(h@, "Bearer "@) && t@ == h@.skip(7),
            Err(e) => !crate::strings::has_prefix(h@, "Bearer "@) && e == AuthError::InvalidToken,
        },
{
    match header {
        None => Err(AuthError::MissingAuthHeader),
        Some(h) => match crate::strings::str_strip_prefix(h, "Bearer ") {
            Some(t) => {
                proof {
                    reveal_strlit("Bearer ");
                }
                Ok(t)
            },
            None => Err(AuthError::InvalidToken),
        },
    }
}

// ---------------------------------------------------------------------
// Laws
// ---------------------------------------------------------------------

/// An access token issued to a user stands, read back, for a user with the
/// same id, name and permissions.
pub proof fn law_access_claims_round_trip(ps: Seq<Permission>, names: Seq<Seq<char>>)
    requires
        names.len() == ps.len(),
        forall|i: int| 0 <= i < ps.len() ==> #[trigger] names[i] == permission_name(ps[i]),
    ensures
        claims_user_ok(TokenType::Access, names),
        forall|i: int| 0 <= i < ps.len() ==> parse_permission(#[trigger] names[i]) == Some(ps[i]),
{
    assert forall|i: int| 0 <= i < ps.len() implies parse_permission(#[trigger] names[i]) == Some(
        ps[i],
    ) by {
        crate::permissions::law_name_round_trip(ps[i]);
    }
}

/// A refresh token never stands for a user.
pub proof fn law_refresh_token_is_not_access(names: Seq<Seq<char>>)
    ensures
        !claims_user_ok(TokenType::Refresh, names),
{
}

} // verus!
