//! Authenticated users, permission checks and the decisions the request
//! extractors make.
//!
//! A request's headers reach these functions as the text of each header
//! that is present and has a text value; the extractors of the web layer
//! read the headers and act on the decisions made here.

use vstd::prelude::*;
use crate::permissions::{contains_permission, permission_name, Permission};
use crate::strings::{
    chars_of, clone_opt, concat, concat3, has_prefix, owned, prefix_within, slice_string,
    str_eq, str_strip_prefix, chars_within, utf8_length,
};

verus! {

broadcast use vstd::string::group_string_axioms;

/// Authenticated user information.
#[derive(Debug)]
pub struct User {
    /// User ID
    pub id: String,
    /// Display name
    pub display_name: Option<String>,
    /// User permissions
    pub permissions: Vec<Permission>,
    /// Whether user is admin
    pub is_admin: bool,
}

/// A user with admin status `is_admin` and permissions `ps` holds `p`:
/// admins hold every permission.
pub open spec fn grants(is_admin: bool, ps: Seq<Permission>, p: Permission) -> bool {
    is_admin || ps.contains(p)
}

/// The identity of a registered user, as the application layer takes it.
#[derive(Debug)]
pub struct UserIdentity {
    pub user_id: String,
    pub display_name: Option<String>,
    pub email: Option<String>,
}

/// The permission context the application layer runs an operation in.
#[derive(Debug)]
pub enum PermissionContext {
    /// Every operation is permitted.
    Open,
    /// A local (trusted) caller.
    Local,
    /// A registered user.
    User(UserIdentity),
    /// An anonymous caller holding the listed permissions.
    Anonymous(Vec<Permission>),
}

/// The one permission anonymous callers hold.
pub fn anonymous_permissions() -> (ps: Vec<Permission>)
    ensures
        ps@ == seq![Permission::Query],
{
    let mut ps: Vec<Permission> = Vec::new();
    ps.push(Permission::Query);
    ps
}

/// The permissions of a user authenticated by a plain user-id header.
pub fn header_user_permissions() -> (ps: Vec<Permission>)
    ensures
        ps@ == seq![Permission::Query, Permission::GenerateWiki],
{
    let mut ps: Vec<Permission> = Vec::new();
    ps.push(Permission::Query);
    ps.push(Permission::GenerateWiki);
    ps
}

/// The permissions of a user authenticated by any API key.
pub fn api_key_user_permissions() -> (ps: Vec<Permission>)
    ensures
        ps@ == seq![Permission::Query, Permission::GenerateWiki, Permission::Admin],
{
    let mut ps: Vec<Permission> = Vec::new();
    ps.push(Permission::Query);
    ps.push(Permission::GenerateWiki);
    ps.push(Permission::Admin);
    ps
}

impl User {
    /// A user; it is an admin exactly when it holds the Admin permission.
    pub fn new(id: String, display_name: Option<String>, permissions: Vec<Permission>) -> (u: Self)
        ensures
            u.id == id,
            u.display_name == display_name,
            u.permissions@ == permissions@,
            u.is_admin == permissions@.contains(Permission::Admin),
    {
        let is_admin = contains_permission(permissions.as_slice(), Permission::Admin);
        User { id, display_name, permissions, is_admin }
    }

    /// Whether the user holds `permission`; admins hold every permission.
    pub fn has_permission(&self, permission: &Permission) -> (b: bool)
        ensures
            b == grants(self.is_admin, self.permissions@, *permission),
    {
        self.is_admin || contains_permission(self.permissions.as_slice(), *permission)
    }

    /// The context of this registered user (with no e-mail).
    pub fn to_permission_context(&self) -> (c: PermissionContext)
        ensures
            c matches PermissionContext::User(identity) && identity.user_id == self.id
                && identity.display_name == self.display_name && identity.email is None,
    {
        PermissionContext::User(
            UserIdentity {
                user_id: self.id.clone(),
                display_name: clone_opt(&self.display_name),
                email: None,
            },
        )
    }
}

/// Anonymous user context for public endpoints.
#[derive(Debug)]
pub struct AnonymousUser;

impl AnonymousUser {
    /// Anonymous callers may query and nothing else.
    pub fn to_permission_context(&self) -> (c: PermissionContext)
        ensures
            c matches PermissionContext::Anonymous(ps) && ps@ == seq![Permission::Query],
    {
        PermissionContext::Anonymous(anonymous_permissions())
    }
}

/// Authentication redirect for failed authentication (to `/login`).
#[derive(Debug)]
pub struct AuthRedirect;

/// Permission denied error with detailed message.
#[derive(Debug)]
pub struct PermissionDenied {
    pub required_permission: String,
    pub user_id: Option<String>,
}

/// The message of a denial of `required` to `user_id`.
pub open spec fn denial_message(required: Seq<char>, user_id: Option<Seq<char>>) -> Seq<char> {
    match user_id {
        Some(id) => "User '"@ + id + "' does not have required permission: "@ + required,
        None => "Required permission: "@ + required,
    }
}

impl PermissionDenied {
    /// A denial of `required_permission` to the user `user_id`.
    pub fn new(required_permission: &str, user_id: Option<String>) -> (d: Self)
        ensures
            d.required_permission@ == required_permission@,
            d.user_id == user_id,
    {
        PermissionDenied { required_permission: owned(required_permission), user_id }
    }

    /// The HTTP status of a denial: 403 Forbidden.
    pub fn status_code(&self) -> (s: u16)
        ensures
            s == 403,
    {
        403
    }

    /// The human-readable message of the denial.
    pub fn message(&self) -> (m: String)
        ensures
            m@ == denial_message(
                self.required_permission@,
                match self.user_id {
                    Some(id) => Some(id@),
                    None => None,
                },
            ),
    {
        match &self.user_id {
            Some(id) => {
                let head = concat3("User '", id.as_str(), "' does not have required permission: ");
                concat(head.as_str(), self.required_permission.as_str())
            },
            None => concat("Required permission: ", self.required_permission.as_str()),
        }
    }
}

// ---------------------------------------------------------------------
// Header-based authentication
// ---------------------------------------------------------------------

/// The API key a header carries: its text without a leading `Bearer `.
pub open spec fn api_key_text(header: Seq<char>) -> Seq<char> {
    if has_prefix(header, "Bearer "@) {
        header.skip(7)
    } else {
        header
    }
}

/// The API key of a request, from the text of the first of `x-api-key`
/// and `authorization` that is present (`None` when that header has no
/// text value, or neither is present).
pub fn extract_api_key(header: Option<&str>) -> (key: Option<String>)
    ensures
        match header {
            Some(h) => key matches Some(k) && k@ == api_key_text(h@),
            None => key is None,
        },
{
    match header {
        Some(h) => match str_strip_prefix(h, "Bearer ") {
            Some(rest) => {
                proof {
                    reveal_strlit("Bearer ");
                }
                Some(rest)
            },
            None => Some(owned(h)),
        },
        None => None,
    }
}

/// The user id a request names in `x-user-id`.
pub fn extract_user_id(header: Option<&str>) -> (id: Option<String>)
    ensures
        match header {
            Some(h) => id matches Some(i) && i@ == h@,
            None => id is None,
        },
{
    match header {
        Some(h) => Some(owned(h)),
        None => None,
    }
}

/// The first eight bytes of `key` end on a character boundary (or the key
/// is shorter than that).
pub open spec fn short_prefix_exact(key: Seq<char>) -> bool {
    let n = chars_within(key, 8);
    utf8_length(key.take(n as int)) == if utf8_length(key) < 8 {
        utf8_length(key)
    } else {
        8
    }
}

/// The id given to the user of an API key: `api_user_` and the key's
/// first eight bytes.
pub open spec fn api_user_id(key: Seq<char>) -> Seq<char> {
    "api_user_"@ + key.take(chars_within(key, 8) as int)
}

/// Accepts any non-empty API key as an admin user named after the key's
/// first eight bytes.
pub fn authenticate_api_key(api_key: &str) -> (u: Option<User>)
    requires
        short_prefix_exact(api_key@),
    ensures
        api_key@.len() == 0 ==> u is None,
        api_key@.len() > 0 ==> (u matches Some(user) && user.id@ == api_user_id(api_key@)
            && (user.display_name matches Some(n) && n@ == "API User"@) && user.permissions@
            == seq![Permission::Query, Permission::GenerateWiki, Permission::Admin]
            && user.is_admin),
{
    if api_key.is_empty() {
        return None;
    }
    let v = chars_of(api_key);
    let (n, _bytes) = prefix_within(v.as_slice(), 8);
    let prefix = slice_string(v.as_slice(), 0, n);
    assert(v@.subrange(0, n as int) == v@.take(n as int));
    let id = concat("api_user_", prefix.as_str());
    let perms = api_key_user_permissions();
    assert(perms@.contains(Permission::Admin)) by {
        assert(perms@[2] == Permission::Admin);
    }
    Some(User::new(id, Some(owned("API User")), perms))
}

/// The text of an optional header.
pub open spec fn header_view(h: Option<&str>) -> Option<Seq<char>> {
    match h {
        Some(t) => Some(t@),
        None => None,
    }
}

/// `u` is the user that headers with the texts `api_key_header` and
/// `user_id_header` stand for: the admin user of a non-empty API key,
/// else the user named by `x-user-id`, who may query and generate wikis,
/// else nobody.
pub open spec fn header_user(
    u: Option<User>,
    api_key_header: Option<Seq<char>>,
    user_id_header: Option<Seq<char>>,
) -> bool {
    if api_key_header matches Some(h) && api_key_text(h).len() > 0 {
        let key = api_key_text(api_key_header->0);
        u matches Some(user) && user.id@ == api_user_id(key) && (user.display_name matches Some(n)
            && n@ == "API User"@) && user.permissions@ == seq![
            Permission::Query,
            Permission::GenerateWiki,
            Permission::Admin,
        ] && user.is_admin
    } else if user_id_header is Some {
        u matches Some(user) && user.id@ == user_id_header->0 && (user.display_name matches Some(n)
            && n@ == "Header User"@) && user.permissions@ == seq![
            Permission::Query,
            Permission::GenerateWiki,
        ] && !user.is_admin
    } else {
        u is None
    }
}

/// The user a request's headers authenticate: any non-empty API key
/// (see `authenticate_api_key`), else the user named by `x-user-id`, who
/// may query and generate wikis.
pub fn authenticate_from_headers(api_key_header: Option<&str>, user_id_header: Option<&str>) -> (u:
    Option<User>)
    requires
        api_key_header matches Some(h) ==> short_prefix_exact(api_key_text(h@)),
    ensures
        header_user(u, header_view(api_key_header), header_view(user_id_header)),
{
    if let Some(key) = extract_api_key(api_key_header) {
        if let Some(user) = authenticate_api_key(key.as_str()) {
            return Some(user);
        }
    }
    if let Some(user_id) = extract_user_id(user_id_header) {
        let perms = header_user_permissions();
        assert(!perms@.contains(Permission::Admin)) by {
            if perms@.contains(Permission::Admin) {
                let i = choose|i: int| 0 <= i < perms@.len() && perms@[i] == Permission::Admin;
                assert(i == 0 || i == 1);
            }
        }
        return Some(User::new(user_id, Some(owned("Header User")), perms));
    }
    None
}

/// The user of a request: the user of its access token when it has a
/// valid one, else the user its headers authenticate.  `None` means the
/// request is redirected to the login page.
pub fn resolve_user(
    token_user: Option<User>,
    api_key_header: Option<&str>,
    user_id_header: Option<&str>,
) -> (u: Option<User>)
    requires
        api_key_header matches Some(h) ==> short_prefix_exact(api_key_text(h@)),
    ensures
        token_user is Some ==> u == token_user,
        token_user is None ==> header_user(u, header_view(api_key_header), header_view(user_id_header)),
{
    match token_user {
        Some(user) => Some(user),
        None => authenticate_from_headers(api_key_header, user_id_header),
    }
}

// ---------------------------------------------------------------------
// Permission checks of the extractors
// ---------------------------------------------------------------------

/// Admits `user` when it holds `permission`; otherwise the denial names
/// the permission and the user.
pub fn require_permission(user: User, permission: Permission) -> (r: Result<User, PermissionDenied>)
    ensures
        grants(user.is_admin, user.permissions@, permission) ==> r == Ok::<User, PermissionDenied>(
            user,
        ),
        !grants(user.is_admin, user.permissions@, permission) ==> (r matches Err(d) && d.required_permission@ == permission_name(permission) && d.user_id == Some(user.id)),
{
    if user.has_permission(&permission) {
        Ok(user)
    } else {
        let id = user.id;
        Err(PermissionDenied::new(permission.name(), Some(id)))
    }
}

/// The check for query access: any user that may query is admitted, and a
/// request without a user is admitted as the anonymous user, who may query.
pub fn require_query(maybe_user: Option<User>) -> (r: Result<User, PermissionDenied>)
    ensures
        match maybe_user {
            Some(user) => if grants(user.is_admin, user.permissions@, Permission::Query) {
                r == Ok::<User, PermissionDenied>(user)
            } else {
                r matches Err(d) && d.required_permission@ == "Query"@ && d.user_id == Some(user.id)
            },
            None => r matches Ok(anon) && anon.id@ == "anonymous"@ && anon.display_name is None
                && anon.permissions@ == seq![Permission::Query] && !anon.is_admin,
        },
{
    match maybe_user {
        Some(user) => require_permission(user, Permission::Query),
        None => {
            let perms = anonymous_permissions();
            assert(!perms@.contains(Permission::Admin)) by {
                if perms@.contains(Permission::Admin) {
                    let i = choose|i: int| 0 <= i < perms@.len() && perms@[i] == Permission::Admin;
                    assert(i == 0);
                }
            }
            Ok(User::new(owned("anonymous"), None, perms))
        },
    }
}

/// The check for admin access.
pub fn require_admin(user: User) -> (r: Result<User, PermissionDenied>)
    ensures
        user.is_admin ==> r == Ok::<User, PermissionDenied>(user),
        !user.is_admin ==> (r matches Err(d) && d.required_permission@ == "Admin"@ && d.user_id == Some(user.id)),
{
    if user.is_admin {
        Ok(user)
    } else {
        let id = user.id;
        Err(PermissionDenied::new("Admin", Some(id)))
    }
}

// ---------------------------------------------------------------------
// Permission contexts by permission mode
// ---------------------------------------------------------------------

/// The permission context of a request in `mode` (`open`, `restricted` or
/// `local`; any other mode is open).  In restricted mode a request that
/// names a user in `x-user-id` acts as that registered user (with the
/// name and e-mail of `x-user-name` and `x-user-email`), and any other
/// request is anonymous.
pub fn permission_context_for(
    mode: Option<&str>,
    user_id: Option<&str>,
    user_name: Option<&str>,
    user_email: Option<&str>,
) -> (c: PermissionContext)
    ensures
        match mode {
            Some(m) => if m@ == "restricted"@ {
                match user_id {
                    Some(id) => c matches PermissionContext::User(identity) && identity.user_id@
                        == id@ && (match user_name {
                        Some(n) => identity.display_name matches Some(d) && d@ == n@,
                        None => identity.display_name is None,
                    }) && (match user_email {
                        Some(e) => identity.email matches Some(x) && x@ == e@,
                        None => identity.email is None,
                    }),
                    None => c matches PermissionContext::Anonymous(ps) && ps@ == seq![
                        Permission::Query,
                    ],
                }
            } else if m@ == "local"@ {
                c is Local
            } else {
                c is Open
            },
            None => c is Open,
        },
{
    match mode {
        Some(m) => {
            if str_eq(m, "restricted") {
                match user_id {
                    Some(id) => PermissionContext::User(
                        UserIdentity {
                            user_id: owned(id),
                            display_name: match user_name {
                                Some(n) => Some(owned(n)),
                                None => None,
                            },
                            email: match user_email {
                                Some(e) => Some(owned(e)),
                                None => None,
                            },
                        },
                    ),
                    None => PermissionContext::Anonymous(anonymous_permissions()),
                }
            } else if str_eq(m, "local") {
                PermissionContext::Local
            } else {
                PermissionContext::Open
            }
        },
        None => PermissionContext::Open,
    }
}

/// The context of an anonymous caller in `mode`: restricted mode grants
/// only querying; every other mode is open.
pub fn anonymous_context_for(mode: Option<&str>) -> (c: PermissionContext)
    ensures
        (mode matches Some(m) && m@ == "restricted"@) ==> (c matches PermissionContext::Anonymous(ps) && ps@ == seq![Permission::Query]),
        !(mode matches Some(m) && m@ == "restricted"@) ==> c is Open,
{
    match mode {
        Some(m) => if str_eq(m, "restricted") {
            PermissionContext::Anonymous(anonymous_permissions())
        } else {
            PermissionContext::Open
        },
        None => PermissionContext::Open,
    }
}

// ---------------------------------------------------------------------
// Laws
// ---------------------------------------------------------------------

/// Admin users hold every permission.
pub proof fn law_admin_holds_all(ps: Seq<Permission>, p: Permission)
    ensures
        grants(ps.contains(Permission::Admin), ps, p) <== ps.contains(Permission::Admin),
{
}

/// A user made from permissions `ps` holds `p` exactly when `ps` holds `p`
/// or holds Admin: nothing else is inherited.
pub proof fn law_granted_exactly(ps: Seq<Permission>, p: Permission)
    ensures
        grants(ps.contains(Permission::Admin), ps, p) <==> (ps.contains(p) || ps.contains(
            Permission::Admin,
        )),
{
}

} // verus!
