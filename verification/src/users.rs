//! User accounts: registration, login and the in-memory user store, and the
//! conversion of accounts to and from database records.

use vstd::prelude::*;
use argon2::password_hash::{PasswordHasher, PasswordVerifier};
use crate::ids::{hyphenated_uuid, new_uuid};
use crate::jwt::AuthError;
use crate::keyed::KeyedList;
use crate::permissions::{copy_permissions, names_of, parse_all, parse_permission, permission_name, Permission};
use crate::strings::{clone_opt, owned, str_eq, utf8_len_below, utf8_length};
use crate::time::{utc_now, Timestamp, MAX_UTC_SECS};

verus! {

broadcast use vstd::string::group_string_axioms;

// ---------------------------------------------------------------------
// Requests and accounts
// ---------------------------------------------------------------------

/// User registration request.
#[derive(Debug)]
pub struct RegisterRequest {
    pub username: String,
    pub email: String,
    pub password: String,
    pub display_name: Option<String>,
}

/// User login request.
#[derive(Debug)]
pub struct LoginRequest {
    pub username: String,
    pub password: String,
}

/// Token refresh request.
#[derive(Debug)]
pub struct RefreshRequest {
    pub refresh_token: String,
}

/// What registration and login answer: the account's public information
/// and its tokens.
#[derive(Debug)]
pub struct AuthResponse {
    pub user: UserInfo,
    pub tokens: crate::jwt::TokenPair,
}

/// Password change request.
#[derive(Debug)]
pub struct ChangePasswordRequest {
    pub current_password: String,
    pub new_password: String,
}

/// User counts: all users, administrators, and users created in the last
/// seven days.
#[derive(Debug)]
pub struct UserStats {
    pub total_users: u64,
    pub admin_users: u64,
    pub recent_users: u64,
}

/// Public user information.
#[derive(Debug)]
pub struct UserInfo {
    pub id: String,
    pub username: String,
    pub email: String,
    pub display_name: Option<String>,
    pub permissions: Vec<String>,
    pub is_admin: bool,
    pub created_at: Timestamp,
}

/// Internal user data with password hash.
#[derive(Debug)]
pub struct UserData {
    pub id: String,
    pub username: String,
    pub email: String,
    pub display_name: Option<String>,
    pub password_hash: String,
    pub permissions: Vec<Permission>,
    pub is_admin: bool,
    pub created_at: Timestamp,
}

/// Two accounts hold the same data.
pub open spec fn same_user(a: UserData, b: UserData) -> bool {
    &&& a.id == b.id
    &&& a.username == b.username
    &&& a.email == b.email
    &&& a.display_name == b.display_name
    &&& a.password_hash == b.password_hash
    &&& a.permissions@ == b.permissions@
    &&& a.is_admin == b.is_admin
    &&& a.created_at == b.created_at
}

/// Why an account cannot be added to a database of accounts, given
/// whether its username and its e-mail are already stored there: either
/// one taken is `InvalidCredentials`.
pub fn stored_account_refusal(username_taken: bool, email_taken: bool) -> (r: Option<AuthError>)
    ensures
        r == (if username_taken || email_taken {
            Some(AuthError::InvalidCredentials)
        } else {
            None::<AuthError>
        }),
{
    if username_taken || email_taken {
        Some(AuthError::InvalidCredentials)
    } else {
        None
    }
}

// ---------------------------------------------------------------------
// Password hashing (argon2)
// ---------------------------------------------------------------------

/// Whether `hash` is a PHC-format password hash that Argon2 verification
/// accepts for `password`.
pub uninterp spec fn password_matches(password: Seq<char>, hash: Seq<char>) -> bool;

/// `argon2`: hashes `password` with the default Argon2 parameters and a
/// fresh random salt, in PHC string format.  The hash is random; what is
/// stated is that verifying the same password against it succeeds.  A
/// hashing failure is reported as `TokenCreation`.  With the default
/// parameters and a generated 16-byte salt, the only refusal in the
/// crate's source is a password longer than `0xFFFF_FFFF` bytes, so a
/// shorter one is hashed.
#[verifier::external_body]
fn hash_password(password: &str) -> (r: Result<String, AuthError>)
    ensures
        r matches Ok(h) ==> password_matches(password@, h@),
        r matches Err(e) ==> e == AuthError::TokenCreation,
        utf8_length(password@) <= 0xFFFF_FFFF ==> r is Ok,
{
    let salt = argon2::password_hash::SaltString::generate(
        &mut argon2::password_hash::rand_core::OsRng,
    );
    match argon2::Argon2::default().hash_password(password.as_bytes(), &salt) {
        Ok(hash) => Ok(hash.to_string()),
        Err(_) => Err(AuthError::TokenCreation),
    }
}

/// `argon2`: verifies `password` against the PHC string `hash`; a hash
/// that does not parse is reported as `InvalidToken`.
#[verifier::external_body]
fn verify_password(password: &str, hash: &str) -> (r: Result<bool, AuthError>)
    ensures
        match r {
            Ok(b) => b == password_matches(password@, hash@),
            Err(e) => !password_matches(password@, hash@) && e == AuthError::InvalidToken,
        },
{
    match argon2::password_hash::PasswordHash::new(hash) {
        Ok(parsed) => Ok(argon2::Argon2::default().verify_password(password.as_bytes(), &parsed).is_ok()),
        Err(_) => Err(AuthError::InvalidToken),
    }
}

impl UserData {
    /// A new account with a fresh id and a hash of `password`, created
    /// now (by the clock); hashing failures are reported.
    pub fn new(
        username: String,
        email: String,
        password: &str,
        display_name: Option<String>,
        permissions: Vec<Permission>,
        is_admin: bool,
    ) -> (r: Result<Self, AuthError>)
        ensures
            match r {
                Ok(u) => {
                    &&& hyphenated_uuid(u.id@)
                    &&& u.username == username
                    &&& u.email == email
                    &&& u.display_name == display_name
                    &&& password_matches(password@, u.password_hash@)
                    &&& u.permissions@ == permissions@
                    &&& u.is_admin == is_admin
                    &&& 0 <= u.created_at.secs <= MAX_UTC_SECS
                },
                Err(e) => e == AuthError::TokenCreation,
            },
            utf8_length(password@) <= 0xFFFF_FFFF ==> r is Ok,
    {
        let password_hash = hash_password(password)?;
        let now = utc_now();
        Ok(
            UserData {
                id: new_uuid(),
                username,
                email,
                display_name,
                password_hash,
                permissions,
                is_admin,
                created_at: now,
            },
        )
    }

    /// Whether `password` is this account's password (an unreadable hash
    /// accepts none).
    pub fn verify_password(&self, password: &str) -> (b: bool)
        ensures
            b == password_matches(password@, self.password_hash@),
    {
        match verify_password(password, self.password_hash.as_str()) {
            Ok(b) => b,
            Err(_) => false,
        }
    }

    /// The public information of the account.
    pub fn to_user_info(&self) -> (info: UserInfo)
        ensures
            info.id == self.id,
            info.username == self.username,
            info.email == self.email,
            info.display_name == self.display_name,
            info.permissions@.len() == self.permissions@.len(),
            forall|i: int|
                0 <= i < self.permissions@.len() ==> (#[trigger] info.permissions@[i])@
                    == permission_name(self.permissions@[i]),
            info.is_admin == self.is_admin,
            info.created_at == self.created_at,
    {
        UserInfo {
            id: self.id.clone(),
            username: self.username.clone(),
            email: self.email.clone(),
            display_name: clone_opt(&self.display_name),
            permissions: names_of(self.permissions.as_slice()),
            is_admin: self.is_admin,
            created_at: self.created_at,
        }
    }

    /// An exact copy of the account.
    pub fn duplicate(&self) -> (r: Self)
        ensures
            same_user(r, *self),
    {
        let permissions = copy_permissions(self.permissions.as_slice());
        UserData {
            id: self.id.clone(),
            username: self.username.clone(),
            email: self.email.clone(),
            display_name: clone_opt(&self.display_name),
            password_hash: self.password_hash.clone(),
            permissions,
            is_admin: self.is_admin,
            created_at: self.created_at,
        }
    }
}

// ---------------------------------------------------------------------
// The in-memory user store
// ---------------------------------------------------------------------

/// The permissions new accounts get.
pub fn default_permissions() -> (ps: Vec<Permission>)
    ensures
        ps@ == seq![Permission::Query, Permission::GenerateWiki],
{
    let mut ps: Vec<Permission> = Vec::new();
    ps.push(Permission::Query);
    ps.push(Permission::GenerateWiki);
    ps
}

/// Whether some account in `m` has the e-mail `email`.
pub open spec fn email_taken(m: Map<Seq<char>, UserData>, email: Seq<char>) -> bool {
    exists|k: Seq<char>| #[trigger] m.contains_key(k) && m[k].email@ == email
}

/// Whether some account in `m` has the id `id`.
pub open spec fn id_taken(m: Map<Seq<char>, UserData>, id: Seq<char>) -> bool {
    exists|k: Seq<char>| #[trigger] m.contains_key(k) && m[k].id@ == id
}

/// Why a registration is refused before any account is made, if it is.
pub open spec fn registration_refusal(
    m: Map<Seq<char>, UserData>,
    username: Seq<char>,
    email: Seq<char>,
    password: Seq<char>,
    password_bytes: nat,
) -> Option<AuthError> {
    if username.len() == 0 || email.len() == 0 || password.len() == 0 {
        Some(AuthError::MissingCredentials)
    } else if password_bytes < 6 {
        Some(AuthError::InvalidCredentials)
    } else if m.contains_key(username) {
        Some(AuthError::InvalidCredentials)
    } else if email_taken(m, email) {
        Some(AuthError::InvalidCredentials)
    } else {
        None
    }
}

/// The outcome of a login against the accounts `m`.
pub open spec fn login_outcome(m: Map<Seq<char>, UserData>, username: Seq<char>, password: Seq<
    char,
>) -> Option<UserData> {
    if m.contains_key(username) && password_matches(password, m[username].password_hash@) {
        Some(m[username])
    } else {
        None
    }
}

/// What is wrong with the fields of a registration, before any store is
/// consulted: an empty field is `MissingCredentials`, a password of fewer
/// than six bytes `InvalidCredentials`.
pub open spec fn registration_input_problem(
    username: Seq<char>,
    email: Seq<char>,
    password: Seq<char>,
) -> Option<AuthError> {
    if username.len() == 0 || email.len() == 0 || password.len() == 0 {
        Some(AuthError::MissingCredentials)
    } else if utf8_length(password) < 6 {
        Some(AuthError::InvalidCredentials)
    } else {
        None
    }
}

/// Checks the fields of a registration (see `registration_input_problem`).
pub fn check_registration_input(request: &RegisterRequest) -> (r: Result<(), AuthError>)
    ensures
        match registration_input_problem(request.username@, request.email@, request.password@) {
            Some(e) => r == Err::<(), AuthError>(e),
            None => r is Ok,
        },
{
    if request.username.as_str().is_empty() || request.email.as_str().is_empty()
        || request.password.as_str().is_empty() {
        return Err(AuthError::MissingCredentials);
    }
    if utf8_len_below(request.password.as_str(), 6) {
        return Err(AuthError::InvalidCredentials);
    }
    Ok(())
}

/// In-memory user store, keyed by username.
#[derive(Debug)]
pub struct MemoryUserStore {
    users: KeyedList<UserData>,
}

impl View for MemoryUserStore {
    type V = Map<Seq<char>, UserData>;

    closed spec fn view(&self) -> Map<Seq<char>, UserData> {
        self.users@
    }
}

impl MemoryUserStore {
    /// Each account is stored under its username, and no two accounts
    /// share an e-mail address.
    pub closed spec fn wf(&self) -> bool {
        &&& self.users.wf()
        &&& forall|k: Seq<char>| #[trigger] self.users@.contains_key(k) ==> self.users@[k].username@ == k
        &&& forall|k1: Seq<char>, k2: Seq<char>|
            #[trigger] self.users@.contains_key(k1) && #[trigger] self.users@.contains_key(k2)
                && self.users@[k1].email@ == self.users@[k2].email@ ==> k1 == k2
    }

    /// A store with no accounts.
    pub fn empty() -> (s: Self)
        ensures
            s.wf(),
            s@ == Map::<Seq<char>, UserData>::empty(),
    {
        MemoryUserStore { users: KeyedList::new() }
    }

    /// A store holding the default administrator `admin` (password
    /// `admin123`, e-mail `admin@wikify.local`), created now.
    pub fn memory() -> (s: Self)
        ensures
            s.wf(),
            s@.len() == 1,
            s@.dom() == set!["admin"@],
            s@.contains_key("admin"@),
            ({
                let a = s@["admin"@];
                &&& a.username@ == "admin"@
                &&& hyphenated_uuid(a.id@)
                &&& a.email@ == "admin@wikify.local"@
                &&& a.display_name matches Some(n) && n@ == "Administrator"@
                &&& a.permissions@ == seq![Permission::Admin]
                &&& a.is_admin
                &&& password_matches("admin123"@, a.password_hash@)
                &&& 0 <= a.created_at.secs <= MAX_UTC_SECS
            }),
    {
        let mut store = MemoryUserStore::empty();
        let mut perms: Vec<Permission> = Vec::new();
        perms.push(Permission::Admin);
        proof {
            reveal_strlit("admin123");
            crate::strings::lemma_utf8_length_bound("admin123"@);
        }
        match UserData::new(
            owned("admin"),
            owned("admin@wikify.local"),
            "admin123",
            Some(owned("Administrator")),
            perms,
            true,
        ) {
            Ok(admin) => {
                let key = admin.username.clone();
                store.users.insert(key, admin);
                proof {
                    store.users.lemma_items();
                    assert(store@.dom() =~= set!["admin"@]);
                    assert(store@.len() == 1);
                }
            },
            Err(_) => {},
        }
        store
    }

    /// The account with username `username`, if any.
    pub fn get_user_by_username(&self, username: &str) -> (r: Option<UserData>)
        requires
            self.wf(),
        ensures
            match r {
                Some(u) => self@.contains_key(username@) && same_user(u, self@[username@]),
                None => !self@.contains_key(username@),
            },
    {
        match self.users.get(username) {
            Some(u) => Some(u.duplicate()),
            None => None,
        }
    }

    /// An account with id `user_id`, if any.
    pub fn get_user_by_id(&self, user_id: &str) -> (r: Option<UserData>)
        requires
            self.wf(),
        ensures
            match r {
                Some(u) => exists|k: Seq<char>|
                    #[trigger] self@.contains_key(k) && same_user(u, self@[k]) && u.id@ == user_id@,
                None => !id_taken(self@, user_id@),
            },
    {
        proof {
            self.users.lemma_items();
        }
        let n = self.users.len();
        let mut i: usize = 0;
        while i < n
            invariant
                self.wf(),
                n == self.users.items().len(),
                i <= n,
                forall|j: int| 0 <= j < i ==> (#[trigger] self.users.items()[j]).1.id@ != user_id@,
            decreases n - i,
        {
            let item = self.users.item_at(i);
            if str_eq(item.1.id.as_str(), user_id) {
                proof {
                    self.users.lemma_items();
                    assert(self@.contains_key(item.0@));
                }
                return Some(item.1.duplicate());
            }
            i = i + 1;
        }
        proof {
            assert forall|k: Seq<char>| #[trigger] self@.contains_key(k) implies self@[k].id@
                != user_id@ by {
                let j = choose|j: int| 0 <= j < self.users.items().len() && (#[trigger] self.users.items()[j]).0@ == k;
                assert(self@[self.users.items()[j].0@] == self.users.items()[j].1);
            }
        }
        None
    }

    /// Whether some account has the e-mail `email`.
    fn has_email(&self, email: &str) -> (b: bool)
        requires
            self.wf(),
        ensures
            b == email_taken(self@, email@),
    {
        proof {
            self.users.lemma_items();
        }
        let n = self.users.len();
        let mut i: usize = 0;
        while i < n
            invariant
                self.wf(),
                n == self.users.items().len(),
                i <= n,
                forall|j: int| 0 <= j < i ==> (#[trigger] self.users.items()[j]).1.email@ != email@,
            decreases n - i,
        {
            let item = self.users.item_at(i);
            if str_eq(item.1.email.as_str(), email) {
                proof {
                    self.users.lemma_items();
                    assert(self@.contains_key(item.0@));
                    assert(self@[item.0@] == item.1);
                }
                return true;
            }
            i = i + 1;
        }
        proof {
            assert forall|k: Seq<char>| #[trigger] self@.contains_key(k) implies self@[k].email@
                != email@ by {
                let j = choose|j: int| 0 <= j < self.users.items().len() && (#[trigger] self.users.items()[j]).0@ == k;
                assert(self@[self.users.items()[j].0@] == self.users.items()[j].1);
            }
        }
        false
    }

    /// Registers a new account with the default permissions (query and
    /// wiki generation), created now.  Empty fields, a password of
    /// fewer than six bytes, and a username or e-mail already in use are
    /// refused; a refused registration changes nothing.  Otherwise the
    /// account is made, unless its password is too long to hash (more than
    /// `0xFFFF_FFFF` bytes).
    pub fn register_user(&mut self, request: RegisterRequest) -> (r: Result<
        UserData,
        AuthError,
    >)
        requires
            old(self).wf(),
        ensures
            final(self).wf(),
            ({
                let refusal = registration_refusal(
                    old(self)@,
                    request.username@,
                    request.email@,
                    request.password@,
                    utf8_length(request.password@),
                );
                match refusal {
                    Some(e) => r == Err::<UserData, AuthError>(e) && final(self)@ == old(self)@,
                    None => match r {
                        Ok(u) => {
                            &&& u.username == request.username
                            &&& u.email == request.email
                            &&& u.display_name == request.display_name
                            &&& password_matches(request.password@, u.password_hash@)
                            &&& u.permissions@ == seq![Permission::Query, Permission::GenerateWiki]
                            &&& !u.is_admin
                            &&& 0 <= u.created_at.secs <= MAX_UTC_SECS
                            &&& final(self)@.dom() == old(self)@.dom().insert(request.username@)
                            &&& same_user(final(self)@[request.username@], u)
                            &&& forall|k: Seq<char>|
                                #[trigger] old(self)@.contains_key(k) ==> final(self)@[k] == old(
                                    self,
                                )@[k]
                        },
                        Err(e) => {
                            &&& e == AuthError::TokenCreation
                            &&& utf8_length(request.password@) > 0xFFFF_FFFF
                            &&& final(self)@ == old(self)@
                        },
                    },
                }
            }),
    {
        if request.username.as_str().is_empty() || request.email.as_str().is_empty()
            || request.password.as_str().is_empty() {
            return Err(AuthError::MissingCredentials);
        }
        if utf8_len_below(request.password.as_str(), 6) {
            return Err(AuthError::InvalidCredentials);
        }
        if self.users.contains_key(request.username.as_str()) {
            return Err(AuthError::InvalidCredentials);
        }
        if self.has_email(request.email.as_str()) {
            return Err(AuthError::InvalidCredentials);
        }
        let ghost old_map = self@;
        let ghost uname = request.username@;
        let user = UserData::new(
            request.username,
            request.email,
            request.password.as_str(),
            request.display_name,
            default_permissions(),
            false,
        )?;
        let stored = user.duplicate();
        let key = user.username.clone();
        self.users.insert(key, stored);
        proof {
            assert(self@ == old_map.insert(uname, self@[uname]));
            assert(self@.dom() =~= old_map.dom().insert(uname));
            assert forall|k1: Seq<char>, k2: Seq<char>|
                #[trigger] self@.contains_key(k1) && #[trigger] self@.contains_key(k2)
                    && self@[k1].email@ == self@[k2].email@ implies k1 == k2 by {
                if k1 != uname && k2 != uname {
                    assert(old_map.contains_key(k1) && old_map.contains_key(k2));
                } else if k1 == uname && k2 != uname {
                    assert(old_map.contains_key(k2));
                    assert(email_taken(old_map, self@[k1].email@));
                } else if k2 == uname && k1 != uname {
                    assert(old_map.contains_key(k1));
                    assert(email_taken(old_map, self@[k2].email@));
                }
            }
        }
        Ok(user)
    }

    /// Logs in: the account of `username` when `password` is its password;
    /// otherwise `InvalidCredentials`.
    pub fn authenticate_user(&self, request: LoginRequest) -> (r: Result<UserData, AuthError>)
        requires
            self.wf(),
        ensures
            match login_outcome(self@, request.username@, request.password@) {
                Some(u) => r matches Ok(v) && same_user(v, u),
                None => r == Err::<UserData, AuthError>(AuthError::InvalidCredentials),
            },
    {
        match self.users.get(request.username.as_str()) {
            None => Err(AuthError::InvalidCredentials),
            Some(user) => {
                if !user.verify_password(request.password.as_str()) {
                    return Err(AuthError::InvalidCredentials);
                }
                Ok(user.duplicate())
            },
        }
    }
}

// ---------------------------------------------------------------------
// Laws of the user store
// ---------------------------------------------------------------------

/// A registered user can log in with the password it registered with, and
/// the login yields the registered account.
pub proof fn law_register_then_login(
    after: Map<Seq<char>, UserData>,
    username: Seq<char>,
    password: Seq<char>,
    registered: UserData,
)
    requires
        after.contains_key(username),
        same_user(after[username], registered),
        password_matches(password, registered.password_hash@),
    ensures
        login_outcome(after, username, password) matches Some(u) && same_user(u, registered),
{
}

/// A login with an unknown username, or with a password that is not the
/// account's, is refused.
pub proof fn law_wrong_credentials_refused(
    m: Map<Seq<char>, UserData>,
    username: Seq<char>,
    password: Seq<char>,
)
    requires
        !m.contains_key(username) || !password_matches(password, m[username].password_hash@),
    ensures
        login_outcome(m, username, password) is None,
{
}

/// A username that is taken cannot be registered again.
pub proof fn law_username_taken_refused(
    m: Map<Seq<char>, UserData>,
    username: Seq<char>,
    email: Seq<char>,
    password: Seq<char>,
    password_bytes: nat,
)
    requires
        m.contains_key(username),
    ensures
        registration_refusal(m, username, email, password, password_bytes) is Some,
{
}

// ---------------------------------------------------------------------
// Database records
// ---------------------------------------------------------------------

/// A user as the database stores it: the permission names as a JSON array
/// and the creation time as RFC 3339 text.
#[derive(Debug)]
pub struct UserRecord {
    pub id: String,
    pub username: String,
    pub email: String,
    pub display_name: Option<String>,
    pub password_hash: String,
    pub permissions: String,
    pub is_admin: bool,
    pub created_at: String,
}

/// The list of strings `serde_json` reads from `text`, if it is a JSON
/// array of strings.
pub uninterp spec fn json_string_list(text: Seq<char>) -> Option<Seq<Seq<char>>>;

/// The JSON text `serde_json` writes for a list of strings.
pub uninterp spec fn json_of_string_list(items: Seq<Seq<char>>) -> Seq<char>;

/// The point in time `chrono` reads from `text` (relaxed RFC 3339, any
/// offset, converted to UTC), if it is one.
pub uninterp spec fn utc_datetime_text(text: Seq<char>) -> Option<Timestamp>;

/// The RFC 3339 text `chrono` writes for a point in UTC time.
pub uninterp spec fn rfc3339_text(t: Timestamp) -> Seq<char>;

/// A point whose year `chrono` writes with four digits (years 1970 to
/// 9999) and whose nanoseconds are below one second.
pub open spec fn four_digit_year(t: Timestamp) -> bool {
    0 <= t.secs <= 253_402_300_799 && t.nanos < 1_000_000_000
}

/// The views of a list of strings.
pub open spec fn views(v: Seq<String>) -> Seq<Seq<char>> {
    v.map_values(|s: String| s@)
}

/// `serde_json::from_str::<Vec<String>>`; its result is named
/// `json_string_list`.
#[verifier::external_body]
fn parse_json_string_list(text: &str) -> (r: Option<Vec<String>>)
    ensures
        match r {
            Some(v) => json_string_list(text@) == Some(views(v@)),
            None => json_string_list(text@) is None,
        },
{
    serde_json::from_str::<Vec<String>>(text).ok()
}

/// `serde_json::to_string` of a list of strings (it cannot fail for one);
/// reading the text back gives the list.
#[verifier::external_body]
fn json_string_list_text(items: &Vec<String>) -> (r: String)
    ensures
        r@ == json_of_string_list(views(items@)),
        json_string_list(r@) == Some(views(items@)),
{
    match serde_json::to_string(items) {
        Ok(s) => s,
        Err(_) => String::new(),
    }
}

/// `chrono`'s `DateTime<Utc>` parser; its result is named
/// `utc_datetime_text`.
#[verifier::external_body]
fn parse_utc_datetime(text: &str) -> (r: Option<Timestamp>)
    ensures
        r == utc_datetime_text(text@),
{
    match text.parse::<chrono::DateTime<chrono::Utc>>() {
        Ok(dt) => Some(Timestamp { secs: dt.timestamp(), nanos: dt.timestamp_subsec_nanos() }),
        Err(_) => None,
    }
}

/// `chrono`'s `DateTime::to_rfc3339`; for four-digit years the parser
/// reads the text back as the same point.
#[verifier::external_body]
fn to_rfc3339(t: Timestamp) -> (r: String)
    requires
        t.secs <= crate::time::MAX_UTC_SECS,
        t.secs >= crate::time::MIN_UTC_SECS,
        t.nanos < 2_000_000_000,
    ensures
        r@ == rfc3339_text(t),
        four_digit_year(t) ==> utc_datetime_text(r@) == Some(t),
{
    match chrono::DateTime::<chrono::Utc>::from_timestamp(t.secs, t.nanos) {
        Some(dt) => dt.to_rfc3339(),
        None => String::new(),
    }
}

/// The text a list of permissions is stored as: the JSON list of their
/// names, which reads back as those names.
pub fn permissions_text(permissions: &[Permission]) -> (r: String)
    ensures
        r@ == json_of_string_list(permissions@.map_values(|p: Permission| permission_name(p))),
        json_string_list(r@) == Some(permissions@.map_values(|p: Permission| permission_name(p))),
{
    let names = names_of(permissions);
    let text = json_string_list_text(&names);
    proof {
        assert(views(names@) =~= permissions@.map_values(|p: Permission| permission_name(p)));
    }
    text
}

impl UserRecord {
    /// The account a record holds.  Permission text that is not a JSON
    /// list of permission names is `InvalidPermissions`; a creation time
    /// that does not parse is `InvalidToken`.
    pub fn to_user_data(&self) -> (r: Result<UserData, AuthError>)
        ensures
            match json_string_list(self.permissions@) {
                None => r == Err::<UserData, AuthError>(AuthError::InvalidPermissions),
                Some(names) => if exists|i: int|
                    0 <= i < names.len() && parse_permission(#[trigger] names[i]) is None {
                    r == Err::<UserData, AuthError>(AuthError::InvalidPermissions)
                } else {
                    match utc_datetime_text(self.created_at@) {
                        None => r == Err::<UserData, AuthError>(AuthError::InvalidToken),
                        Some(t) => r matches Ok(u) && u.id == self.id && u.username
                            == self.username && u.email == self.email && u.display_name
                            == self.display_name && u.password_hash == self.password_hash
                            && u.is_admin == self.is_admin && u.created_at == t
                            && u.permissions@.len() == names.len() && (forall|i: int|
                            0 <= i < names.len() ==> parse_permission(#[trigger] names[i]) == Some(
                                u.permissions@[i],
                            )),
                    }
                },
            },
    {
        let names = match parse_json_string_list(self.permissions.as_str()) {
            Some(names) => names,
            None => {
                return Err(AuthError::InvalidPermissions);
            },
        };
        let permissions = match parse_all(names.as_slice()) {
            Some(ps) => ps,
            None => {
                proof {
                    let i = choose|i: int|
                        0 <= i < names@.len() && parse_permission(#[trigger] names@[i]@) is None;
                    assert(views(names@)[i] == names@[i]@);
                }
                return Err(AuthError::InvalidPermissions);
            },
        };
        proof {
            assert forall|i: int| 0 <= i < views(names@).len() implies parse_permission(
                #[trigger] views(names@)[i],
            ) is Some by {
                assert(views(names@)[i] == names@[i]@);
            }
        }
        let created_at = match parse_utc_datetime(self.created_at.as_str()) {
            Some(t) => t,
            None => {
                return Err(AuthError::InvalidToken);
            },
        };
        proof {
            assert forall|i: int| 0 <= i < views(names@).len() implies parse_permission(
                #[trigger] views(names@)[i],
            ) == Some(permissions@[i]) by {
                assert(views(names@)[i] == names@[i]@);
            }
        }
        Ok(
            UserData {
                id: self.id.clone(),
                username: self.username.clone(),
                email: self.email.clone(),
                display_name: clone_opt(&self.display_name),
                password_hash: self.password_hash.clone(),
                permissions,
                is_admin: self.is_admin,
                created_at,
            },
        )
    }

    /// The record of an account.
    pub fn from_user_data(user: &UserData) -> (r: Self)
        requires
            user.created_at.secs <= crate::time::MAX_UTC_SECS,
            user.created_at.secs >= crate::time::MIN_UTC_SECS,
            user.created_at.nanos < 2_000_000_000,
        ensures
            r.id == user.id,
            r.username == user.username,
            r.email == user.email,
            r.display_name == user.display_name,
            r.password_hash == user.password_hash,
            r.permissions@ == json_of_string_list(
                user.permissions@.map_values(|p: Permission| permission_name(p)),
            ),
            json_string_list(r.permissions@) == Some(
                user.permissions@.map_values(|p: Permission| permission_name(p)),
            ),
            r.is_admin == user.is_admin,
            r.created_at@ == rfc3339_text(user.created_at),
            four_digit_year(user.created_at) ==> utc_datetime_text(r.created_at@) == Some(
                user.created_at,
            ),
    {
        let text = permissions_text(user.permissions.as_slice());
        UserRecord {
            id: user.id.clone(),
            username: user.username.clone(),
            email: user.email.clone(),
            display_name: clone_opt(&user.display_name),
            password_hash: user.password_hash.clone(),
            permissions: text,
            is_admin: user.is_admin,
            created_at: to_rfc3339(user.created_at),
        }
    }
}

/// An account written to the database as a record reads back as the same
/// account (for creation times with four-digit years).
pub proof fn law_record_round_trip(user: UserData, record_permissions: Seq<char>, record_created: Seq<char>)
    requires
        json_string_list(record_permissions) == Some(
            user.permissions@.map_values(|p: Permission| permission_name(p)),
        ),
        four_digit_year(user.created_at),
        utc_datetime_text(record_created) == Some(user.created_at),
    ensures
        json_string_list(record_permissions) matches Some(names) && names.len()
            == user.permissions@.len() && (forall|i: int|
            0 <= i < names.len() ==> parse_permission(#[trigger] names[i]) == Some(
                user.permissions@[i],
            )),
        utc_datetime_text(record_created) == Some(user.created_at),
{
    let names = user.permissions@.map_values(|p: Permission| permission_name(p));
    assert forall|i: int| 0 <= i < names.len() implies parse_permission(#[trigger] names[i])
        == Some(user.permissions@[i]) by {
        crate::permissions::law_name_round_trip(user.permissions@[i]);
    }
}

/// A registration that leaves the username, the e-mail address or the
/// password empty is refused as missing credentials, whatever the other
/// fields and the accounts hold; and a registration that is not refused
/// has all three, a password of at least six bytes, and a username and an
/// e-mail address that no account has.
pub proof fn law_registration_needs_every_field(
    m: Map<Seq<char>, UserData>,
    username: Seq<char>,
    email: Seq<char>,
    password: Seq<char>,
    password_bytes: nat,
)
    ensures
        username.len() == 0 || email.len() == 0 || password.len() == 0 ==> registration_refusal(
            m,
            username,
            email,
            password,
            password_bytes,
        ) == Some(AuthError::MissingCredentials),
        registration_refusal(m, username, email, password, password_bytes) is None ==> {
            &&& username.len() > 0
            &&& email.len() > 0
            &&& password.len() > 0
            &&& password_bytes >= 6
            &&& !m.contains_key(username)
            &&& forall|k: Seq<char>| #[trigger] m.contains_key(k) ==> m[k].email@ != email
        },
{
    if registration_refusal(m, username, email, password, password_bytes) is None {
        assert forall|k: Seq<char>| #[trigger] m.contains_key(k) implies m[k].email@ != email by {
            if m[k].email@ == email {
                assert(email_taken(m, email));
            }
        }
    }
}

} // verus!
