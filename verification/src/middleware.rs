//! Request middleware decisions: the user context a request carries, and
//! the steps of authenticating a request by token or API key.

use vstd::prelude::*;
use crate::api_keys::ApiKeyError;
use crate::auth::User;
use crate::config::{is_default_config, WebConfig};
use crate::permissions::copy_permissions;
use crate::strings::{
    chars_of, has_prefix, owned, seq_has_prefix, slice_string, split_char, split_on, str_eq,
    str_strip_prefix, trim, trim_chars,
};
use crate::users::UserData;

verus! {

broadcast use vstd::string::group_string_axioms;

// ---------------------------------------------------------------------
// User context
// ---------------------------------------------------------------------

/// Who a request is made for.
#[derive(Debug)]
pub struct UserContext {
    /// The user id; `default` when the request names none.
    pub user_id: String,
    /// The display name.
    pub display_name: Option<String>,
}

impl Default for UserContext {
    /// The default user, `default`, shown as `Default User`.
    fn default() -> (c: Self)
        ensures
            c.user_id@ == "default"@,
            c.display_name matches Some(n) && n@ == "Default User"@,
    {
        UserContext { user_id: owned("default"), display_name: Some(owned("Default User")) }
    }
}

/// The cookie name that carries the user id, with its `=`.
pub open spec fn user_cookie_prefix() -> Seq<char> {
    "wikify_user_id="@
}

/// The value of the first cookie among `pieces` (each trimmed) that starts
/// with `prefix`.
pub open spec fn first_cookie_value(pieces: Seq<Seq<char>>, prefix: Seq<char>) -> Option<Seq<char>>
    decreases pieces.len(),
{
    if pieces.len() == 0 {
        None
    } else if has_prefix(trim(pieces[0]), prefix) {
        Some(trim(pieces[0]).skip(prefix.len() as int))
    } else {
        first_cookie_value(pieces.drop_first(), prefix)
    }
}

/// The user id a `Cookie` header carries: the value of the first
/// `wikify_user_id` cookie among its `;`-separated, trimmed parts.
pub open spec fn cookie_user_id(cookie: Seq<char>) -> Option<Seq<char>> {
    first_cookie_value(split_char(cookie, ';'), user_cookie_prefix())
}

impl UserContext {
    /// The user context of a request, from the text of its `X-User-ID`,
    /// `X-User-Name` and `Cookie` headers (`None` for a header that is
    /// absent or not text): the user named by `X-User-ID` with the name in
    /// `X-User-Name`; else the user of the `wikify_user_id` cookie; else
    /// the default user.
    pub fn from_request(
        user_id_header: Option<&str>,
        user_name_header: Option<&str>,
        cookie_header: Option<&str>,
    ) -> (c: Self)
        ensures
            match user_id_header {
                Some(id) => c.user_id@ == id@ && (match user_name_header {
                    Some(n) => c.display_name matches Some(d) && d@ == n@,
                    None => c.display_name is None,
                }),
                None => match cookie_header {
                    Some(k) if cookie_user_id(k@) is Some => c.user_id@ == cookie_user_id(
                        k@,
                    ).unwrap() && c.display_name is None,
                    _ => c.user_id@ == "default"@ && (c.display_name matches Some(d) && d@
                        == "Default User"@),
                },
            },
    {
        match user_id_header {
            Some(id) => {
                let display_name = match user_name_header {
                    Some(n) => Some(owned(n)),
                    None => None,
                };
                UserContext { user_id: owned(id), display_name }
            },
            None => {
                match cookie_header {
                    Some(cookie) => match Self::extract_user_from_cookie(cookie) {
                        Some(user_id) => {
                            return UserContext { user_id, display_name: None };
                        },
                        None => {},
                    },
                    None => {},
                }
                UserContext::default()
            },
        }
    }

    /// The user id in a `Cookie` header: the value of its first
    /// `wikify_user_id` cookie.
    pub fn extract_user_from_cookie(cookie_str: &str) -> (r: Option<String>)
        ensures
            match cookie_user_id(cookie_str@) {
                Some(v) => r matches Some(s) && s@ == v,
                None => r is None,
            },
    {
        let v = chars_of(cookie_str);
        let pieces = split_on(v.as_slice(), ';');
        let prefix = chars_of("wikify_user_id=");
        let ghost all = pieces@.map_values(|p: Vec<char>| p@);
        assert(all =~= split_char(cookie_str@, ';'));
        let mut i: usize = 0;
        assert(all.skip(0) =~= all);
        while i < pieces.len()
            invariant
                i <= pieces@.len(),
                all.len() == pieces@.len(),
                forall|k: int| 0 <= k < pieces@.len() ==> #[trigger] all[k] == pieces@[k]@,
                prefix@ == user_cookie_prefix(),
                cookie_user_id(cookie_str@) == first_cookie_value(all.skip(i as int), prefix@),
                all == split_char(cookie_str@, ';'),
            decreases pieces@.len() - i,
        {
            let piece = trim_chars(pieces[i].as_slice());
            assert(all.skip(i as int)[0] == all[i as int]);
            assert(all.skip(i as int).drop_first() =~= all.skip(i + 1));
            if seq_has_prefix(piece.as_slice(), prefix.as_slice()) {
                let value = slice_string(piece.as_slice(), prefix.len(), piece.len());
                assert(value@ =~= piece@.skip(prefix@.len() as int));
                return Some(value);
            }
            i = i + 1;
        }
        None
    }

    /// Whether this is the default user.
    pub fn is_default_user(&self) -> (b: bool)
        ensures
            b == (self.user_id@ == "default"@),
    {
        str_eq(self.user_id.as_str(), "default")
    }

    /// The name to show: the display name, else `Default User` for the
    /// default user, else the user id.
    pub fn display_name(&self) -> (n: String)
        ensures
            n@ == match self.display_name {
                Some(d) => d@,
                None => if self.user_id@ == "default"@ {
                    "Default User"@
                } else {
                    self.user_id@
                },
            },
    {
        match &self.display_name {
            Some(d) => d.clone(),
            None => {
                if self.is_default_user() {
                    owned("Default User")
                } else {
                    self.user_id.clone()
                }
            },
        }
    }
}

// ---------------------------------------------------------------------
// Authentication steps
// ---------------------------------------------------------------------

/// The credential an `Authorization` header carries.
#[derive(Debug)]
pub enum Credential {
    /// `Bearer <token>`: a JSON Web Token, or else an API key.
    Bearer(String),
    /// `ApiKey <key>`.
    ApiKey(String),
}

/// The credential in an `Authorization` header's text.
pub open spec fn credential_of(header: Seq<char>) -> Option<(bool, Seq<char>)> {
    if has_prefix(header, "Bearer "@) {
        Some((true, header.skip(7)))
    } else if has_prefix(header, "ApiKey "@) {
        Some((false, header.skip(7)))
    } else {
        None
    }
}

/// Whether the permission mode (`open` when unset) asks for
/// authentication.
pub open spec fn requires_authentication(mode: Option<Seq<char>>) -> bool {
    match mode {
        Some(m) => m != "open"@,
        None => false,
    }
}

/// Under the default configuration the middleware asks for credentials:
/// a request to a protected route without a usable `Authorization`
/// header is answered 401 (see `auth_start`).
pub proof fn law_default_config_requires_credentials(c: WebConfig)
    requires
        is_default_config(c),
    ensures
        requires_authentication(
            match c.permission_mode {
                Some(m) => Some(m@),
                None => None,
            },
        ),
{
    reveal_strlit("restricted");
    reveal_strlit("open");
    assert(c.permission_mode->0@[0] == 'r');
}

/// What the authentication middleware does next.
#[derive(Debug)]
pub enum AuthStep {
    /// Let the request through without a user.
    Pass,
    /// Answer 401 Unauthorized.
    Unauthorized,
    /// Verify the token as a JSON Web Token; report its subject.
    VerifyToken(String),
    /// Look up the account with this id.
    LookupUser(String),
    /// Authenticate this API key.
    CheckApiKey(String),
    /// Let the request through as this user.
    Admit(User),
}

/// The user that stands for an account.
pub open spec fn admits_account(step: AuthStep, account: UserData) -> bool {
    step matches AuthStep::Admit(u) && u.id == account.id && u.display_name == account.display_name
        && u.permissions@ == account.permissions@ && u.is_admin == account.permissions@.contains(
        crate::permissions::Permission::Admin,
    )
}

/// The user that stands for `account`.
fn account_user(account: &UserData) -> (u: User)
    ensures
        u.id == account.id,
        u.display_name == account.display_name,
        u.permissions@ == account.permissions@,
        u.is_admin == account.permissions@.contains(crate::permissions::Permission::Admin),
{
    User::new(
        account.id.clone(),
        crate::strings::clone_opt(&account.display_name),
        copy_permissions(account.permissions.as_slice()),
    )
}

/// The credential in an `Authorization` header, if it carries one.
pub fn parse_authorization(header: Option<&str>) -> (c: Option<Credential>)
    ensures
        match header {
            Some(h) => match credential_of(h@) {
                Some((true, t)) => c matches Some(Credential::Bearer(s)) && s@ == t,
                Some((false, k)) => c matches Some(Credential::ApiKey(s)) && s@ == k,
                None => c is None,
            },
            None => c is None,
        },
{
    proof {
        reveal_strlit("Bearer ");
        reveal_strlit("ApiKey ");
    }
    match header {
        Some(h) => match str_strip_prefix(h, "Bearer ") {
            Some(token) => Some(Credential::Bearer(token)),
            None => match str_strip_prefix(h, "ApiKey ") {
                Some(key) => Some(Credential::ApiKey(key)),
                None => None,
            },
        },
        None => None,
    }
}

/// The first step: pass in open mode; otherwise verify a bearer token,
/// check an API key, or refuse a request without a usable
/// `Authorization` header.
pub fn auth_start(permission_mode: &Option<String>, authorization: Option<&str>) -> (s: AuthStep)
    ensures
        !requires_authentication(
            match permission_mode {
                Some(m) => Some(m@),
                None => None,
            },
        ) ==> s is Pass,
        requires_authentication(
            match permission_mode {
                Some(m) => Some(m@),
                None => None,
            },
        ) ==> match authorization {
            Some(h) => match credential_of(h@) {
                Some((true, t)) => s matches AuthStep::VerifyToken(x) && x@ == t,
                Some((false, k)) => s matches AuthStep::CheckApiKey(x) && x@ == k,
                None => s is Unauthorized,
            },
            None => s is Unauthorized,
        },
{
    let open = match permission_mode {
        Some(m) => str_eq(m.as_str(), "open"),
        None => true,
    };
    if open {
        return AuthStep::Pass;
    }
    match parse_authorization(authorization) {
        Some(Credential::Bearer(token)) => AuthStep::VerifyToken(token),
        Some(Credential::ApiKey(key)) => AuthStep::CheckApiKey(key),
        None => AuthStep::Unauthorized,
    }
}

/// After verifying a bearer token: look up the account of its subject, or,
/// when the token is not a valid JSON Web Token, try it as an API key.
pub fn auth_after_token(token: String, subject: Option<String>) -> (s: AuthStep)
    ensures
        match subject {
            Some(sub) => s matches AuthStep::LookupUser(x) && x == sub,
            None => s matches AuthStep::CheckApiKey(x) && x == token,
        },
{
    match subject {
        Some(sub) => AuthStep::LookupUser(sub),
        None => AuthStep::CheckApiKey(token),
    }
}

/// After looking up the account of a token's subject: admit it, or refuse
/// when there is no such account.
pub fn auth_after_user_lookup(account: Option<UserData>) -> (s: AuthStep)
    ensures
        match account {
            Some(a) => admits_account(s, a),
            None => s is Unauthorized,
        },
{
    match account {
        Some(a) => AuthStep::Admit(account_user(&a)),
        None => AuthStep::Unauthorized,
    }
}

/// After checking an API key: admit its account, or refuse an unknown,
/// inactive or expired key.
pub fn auth_after_api_key(result: Result<Option<UserData>, ApiKeyError>) -> (s: AuthStep)
    ensures
        match result {
            Ok(Some(a)) => admits_account(s, a),
            _ => s is Unauthorized,
        },
{
    match result {
        Ok(Some(a)) => AuthStep::Admit(account_user(&a)),
        _ => AuthStep::Unauthorized,
    }
}

} // verus!
