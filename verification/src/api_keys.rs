//! API keys: creation, storage and authentication.
//!
//! A raw key is `wk_` followed by a random simple UUID.  Only the
//! lowercase hexadecimal SHA-256 digest of a raw key is stored; the raw key
//! is handed out once, when it is created.  Authenticating a raw key finds
//! the stored key through its digest, refuses inactive and expired keys,
//! records the time of use, and yields an account standing for the key.

use vstd::prelude::*;
use crate::digest::{hex_lower, push_hex, sha256, sha256_digest};
use crate::ids::{hyphenated_uuid, new_uuid, new_uuid_simple, simple_uuid};
use crate::keyed::KeyedList;
use crate::permissions::{contains_permission, copy_permissions, Permission};
use crate::strings::{concat, concat3, owned, str_eq};
use crate::time::{later, utc_now, Timestamp, MAX_UTC_SECS, SECS_PER_DAY};
use crate::users::UserData;
use vstd::utf8::encode_utf8;

verus! {

broadcast use vstd::string::group_string_axioms;

// ---------------------------------------------------------------------
// Keys, requests, responses, errors
// ---------------------------------------------------------------------

/// A stored API key.
#[derive(Debug)]
pub struct ApiKey {
    /// Unique key id.
    pub id: String,
    /// Digest of the raw key.
    pub key_hash: String,
    /// The user that owns the key.
    pub user_id: String,
    /// Human-readable name.
    pub name: String,
    /// Permissions granted to the key.
    pub permissions: Vec<Permission>,
    /// When the key was created.
    pub created_at: Timestamp,
    /// When the key expires (`None`: never).
    pub expires_at: Option<Timestamp>,
    /// When the key was last used.
    pub last_used_at: Option<Timestamp>,
    /// Whether the key is active.
    pub is_active: bool,
}

/// Two keys hold the same data.
pub open spec fn same_key(a: ApiKey, b: ApiKey) -> bool {
    &&& a.id == b.id
    &&& a.key_hash == b.key_hash
    &&& a.user_id == b.user_id
    &&& a.name == b.name
    &&& a.permissions@ == b.permissions@
    &&& a.created_at == b.created_at
    &&& a.expires_at == b.expires_at
    &&& a.last_used_at == b.last_used_at
    &&& a.is_active == b.is_active
}

impl ApiKey {
    /// An exact copy of the key.
    pub fn duplicate(&self) -> (r: Self)
        ensures
            same_key(r, *self),
    {
        ApiKey {
            id: self.id.clone(),
            key_hash: self.key_hash.clone(),
            user_id: self.user_id.clone(),
            name: self.name.clone(),
            permissions: copy_permissions(self.permissions.as_slice()),
            created_at: self.created_at,
            expires_at: self.expires_at,
            last_used_at: self.last_used_at,
            is_active: self.is_active,
        }
    }
}

/// API key creation request.
#[derive(Debug)]
pub struct CreateApiKeyRequest {
    /// Human-readable name for the key.
    pub name: String,
    /// Permissions to grant.
    pub permissions: Vec<Permission>,
    /// Days until the key expires (`None`: never).
    pub expires_in_days: Option<u32>,
}

/// What is answered about a key; the raw key only on creation.
#[derive(Debug)]
pub struct ApiKeyResponse {
    pub id: String,
    pub key: Option<String>,
    pub name: String,
    pub permissions: Vec<Permission>,
    pub created_at: Timestamp,
    pub expires_at: Option<Timestamp>,
    pub last_used_at: Option<Timestamp>,
    pub is_active: bool,
}

/// API key errors.
#[derive(Debug)]
pub enum ApiKeyError {
    NotFound,
    Expired,
    Inactive,
    InvalidFormat,
    PermissionDenied,
    Storage(String),
}

/// The text of an API key error.
pub open spec fn api_key_error_text(e: ApiKeyError) -> Seq<char> {
    match e {
        ApiKeyError::NotFound => "API key not found"@,
        ApiKeyError::Expired => "API key expired"@,
        ApiKeyError::Inactive => "API key inactive"@,
        ApiKeyError::InvalidFormat => "Invalid API key format"@,
        ApiKeyError::PermissionDenied => "Permission denied"@,
        ApiKeyError::Storage(s) => "Storage error: "@ + s@,
    }
}

impl ApiKeyError {
    /// The text of the error.
    pub fn message(&self) -> (m: String)
        ensures
            m@ == api_key_error_text(*self),
    {
        match self {
            ApiKeyError::NotFound => owned("API key not found"),
            ApiKeyError::Expired => owned("API key expired"),
            ApiKeyError::Inactive => owned("API key inactive"),
            ApiKeyError::InvalidFormat => owned("Invalid API key format"),
            ApiKeyError::PermissionDenied => owned("Permission denied"),
            ApiKeyError::Storage(s) => concat("Storage error: ", s.as_str()),
        }
    }
}

// ---------------------------------------------------------------------
// Raw keys and their digests
// ---------------------------------------------------------------------

/// The stored digest of a raw key: SHA-256 of its UTF-8 bytes, in
/// lowercase hexadecimal.
pub open spec fn api_key_hash(raw: Seq<char>) -> Seq<char> {
    hex_lower(sha256(encode_utf8(raw)))
}

/// The shape of a raw key: `wk_` and 32 lowercase hexadecimal digits.
pub open spec fn raw_key_shape(s: Seq<char>) -> bool {
    s.len() == 35 && s.take(3) == "wk_"@ && simple_uuid(s.skip(3))
}

/// The digest of `key`.
pub fn hash_key(key: &str) -> (h: String)
    ensures
        h@ == api_key_hash(key@),
{
    let digest = sha256_digest(key.as_bytes());
    let mut h = String::new();
    push_hex(&mut h, digest.as_slice());
    h
}

/// A fresh raw key.
fn generate_raw_key() -> (k: String)
    ensures
        raw_key_shape(k@),
{
    let u = new_uuid_simple();
    let k = concat("wk_", u.as_str());
    proof {
        reveal_strlit("wk_");
        assert(k@.take(3) =~= "wk_"@);
        assert(k@.skip(3) =~= u@);
    }
    k
}

// ---------------------------------------------------------------------
// Storage
// ---------------------------------------------------------------------

/// The key that the digest `h` leads to, if any.
pub open spec fn key_for_hash(
    keys: Map<Seq<char>, ApiKey>,
    index: Map<Seq<char>, String>,
    h: Seq<char>,
) -> Option<ApiKey> {
    if index.contains_key(h) && keys.contains_key(index[h]@) {
        Some(keys[index[h]@])
    } else {
        None
    }
}

/// In-memory API key storage: the keys by id, and an index from digests
/// to ids.
#[derive(Debug)]
pub struct MemoryApiKeyStorage {
    keys: KeyedList<ApiKey>,
    key_hash_index: KeyedList<String>,
}

impl MemoryApiKeyStorage {
    /// The keys, by id.
    pub closed spec fn keys(&self) -> Map<Seq<char>, ApiKey> {
        self.keys@
    }

    /// The digest index: digest to key id.
    pub closed spec fn index(&self) -> Map<Seq<char>, String> {
        self.key_hash_index@
    }

    /// Each key is stored under its own id.
    pub closed spec fn wf(&self) -> bool {
        &&& self.keys.wf()
        &&& self.key_hash_index.wf()
        &&& forall|k: Seq<char>| #[trigger] self.keys@.contains_key(k) ==> self.keys@[k].id@ == k
    }

    /// Empty storage.
    pub fn new() -> (s: Self)
        ensures
            s.wf(),
            s.keys() == Map::<Seq<char>, ApiKey>::empty(),
            s.index() == Map::<Seq<char>, String>::empty(),
    {
        MemoryApiKeyStorage { keys: KeyedList::new(), key_hash_index: KeyedList::new() }
    }

    /// Stores `api_key` under its id, and indexes its digest.
    pub fn store_api_key(&mut self, api_key: &ApiKey) -> (r: Result<(), ApiKeyError>)
        requires
            old(self).wf(),
        ensures
            final(self).wf(),
            r is Ok,
            final(self).keys().dom() == old(self).keys().dom().insert(api_key.id@),
            same_key(final(self).keys()[api_key.id@], *api_key),
            forall|k: Seq<char>|
                k != api_key.id@ && #[trigger] old(self).keys().contains_key(k) ==> final(self).keys()[k] == old(self).keys()[k],
            final(self).index() == old(self).index().insert(api_key.key_hash@, api_key.id),
    {
        let stored = api_key.duplicate();
        self.keys.insert(api_key.id.clone(), stored);
        self.key_hash_index.insert(api_key.key_hash.clone(), api_key.id.clone());
        assert(self.keys@.dom() =~= old(self).keys@.dom().insert(api_key.id@));
        Ok(())
    }

    /// The key that the digest `key_hash` leads to, if any.
    pub fn get_api_key_by_hash(&self, key_hash: &str) -> (r: Result<Option<ApiKey>, ApiKeyError>)
        requires
            self.wf(),
        ensures
            r matches Ok(o) && match key_for_hash(self.keys(), self.index(), key_hash@) {
                Some(k) => o matches Some(v) && same_key(v, k),
                None => o is None,
            },
    {
        match self.key_hash_index.get(key_hash) {
            Some(id) => match self.keys.get(id.as_str()) {
                Some(k) => Ok(Some(k.duplicate())),
                None => Ok(None),
            },
            None => Ok(None),
        }
    }

    /// The key with id `id`, if any.
    pub fn get_api_key_by_id(&self, id: &str) -> (r: Result<Option<ApiKey>, ApiKeyError>)
        requires
            self.wf(),
        ensures
            r matches Ok(o) && if self.keys().contains_key(id@) {
                o matches Some(v) && same_key(v, self.keys()[id@])
            } else {
                o is None
            },
    {
        match self.keys.get(id) {
            Some(k) => Ok(Some(k.duplicate())),
            None => Ok(None),
        }
    }

    /// The keys of the user `user_id`, each once.
    pub fn list_user_api_keys(&self, user_id: &str) -> (r: Result<Vec<ApiKey>, ApiKeyError>)
        requires
            self.wf(),
        ensures
            r matches Ok(v) && {
                &&& forall|i: int|
                    0 <= i < v@.len() ==> {
                        &&& (#[trigger] v@[i]).user_id@ == user_id@
                        &&& self.keys().contains_key(v@[i].id@)
                        &&& same_key(v@[i], self.keys()[v@[i].id@])
                    }
                &&& forall|i: int, j: int| 0 <= i < j < v@.len() ==> v@[i].id@ != v@[j].id@
                &&& forall|k: Seq<char>|
                    #[trigger] self.keys().contains_key(k) && self.keys()[k].user_id@ == user_id@
                        ==> exists|i: int| 0 <= i < v@.len() && (#[trigger] v@[i]).id@ == k
            },
    {
        proof {
            self.keys.lemma_items();
        }
        let n = self.keys.len();
        let mut out: Vec<ApiKey> = Vec::new();
        let ghost mut from: Seq<int> = Seq::empty();
        let mut i: usize = 0;
        while i < n
            invariant
                self.wf(),
                n == self.keys.items().len(),
                i <= n,
                from.len() == out@.len(),
                forall|a: int| 0 <= a < from.len() ==> 0 <= #[trigger] from[a] < i,
                forall|a: int, b: int| 0 <= a < b < from.len() ==> from[a] < from[b],
                forall|a: int|
                    0 <= a < out@.len() ==> {
                        &&& (#[trigger] out@[a]).user_id@ == user_id@
                        &&& same_key(out@[a], self.keys.items()[from[a]].1)
                    },
                forall|j: int|
                    0 <= j < i && (#[trigger] self.keys.items()[j]).1.user_id@ == user_id@
                        ==> exists|a: int| 0 <= a < from.len() && from[a] == j,
            decreases n - i,
        {
            let item = self.keys.item_at(i);
            let ghost before = from;
            if str_eq(item.1.user_id.as_str(), user_id) {
                out.push(item.1.duplicate());
                proof {
                    from = from.push(i as int);
                    assert(from[from.len() - 1] == i);
                    assert forall|j: int|
                        0 <= j < i + 1 && (#[trigger] self.keys.items()[j]).1.user_id@ == user_id@
                            implies exists|a: int| 0 <= a < from.len() && from[a] == j by {
                        if j < i {
                            let a = choose|a: int| 0 <= a < before.len() && before[a] == j;
                            assert(from[a] == before[a]);
                        } else {
                            assert(from[from.len() - 1] == j);
                        }
                    }
                }
            }
            i = i + 1;
        }
        proof {
            self.keys.lemma_items();
            assert forall|a: int| 0 <= a < out@.len() implies {
                &&& (#[trigger] out@[a]).user_id@ == user_id@
                &&& self.keys().contains_key(out@[a].id@)
                &&& same_key(out@[a], self.keys()[out@[a].id@])
            } by {
                let j = from[a];
                let it = self.keys.items()[j];
                assert(self.keys@[it.0@] == it.1);
                assert(self.keys@.contains_key(it.0@));
                assert(it.1.id@ == it.0@);
            }
            assert forall|a: int, b: int| 0 <= a < b < out@.len() implies out@[a].id@ != out@[b].id@ by {
                let ja = from[a];
                let jb = from[b];
                let ia = self.keys.items()[ja];
                let ib = self.keys.items()[jb];
                assert(self.keys@[ia.0@] == ia.1);
                assert(self.keys@[ib.0@] == ib.1);
                assert(self.keys@.contains_key(ia.0@));
                assert(self.keys@.contains_key(ib.0@));
            }
            assert forall|k: Seq<char>|
                #[trigger] self.keys().contains_key(k) && self.keys()[k].user_id@ == user_id@
                    implies exists|a: int| 0 <= a < out@.len() && (#[trigger] out@[a]).id@ == k by {
                let j = choose|j: int|
                    0 <= j < self.keys.items().len() && (#[trigger] self.keys.items()[j]).0@ == k;
                assert(self.keys@[self.keys.items()[j].0@] == self.keys.items()[j].1);
                let a = choose|a: int| 0 <= a < from.len() && from[a] == j;
                assert(out@[a].id@ == k);
            }
        }
        Ok(out)
    }

    /// Replaces the stored key with the id of `api_key`; `NotFound` when
    /// there is none.
    pub fn update_api_key(&mut self, api_key: &ApiKey) -> (r: Result<(), ApiKeyError>)
        requires
            old(self).wf(),
        ensures
            final(self).wf(),
            final(self).index() == old(self).index(),
            if old(self).keys().contains_key(api_key.id@) {
                &&& r is Ok
                &&& final(self).keys().dom() == old(self).keys().dom()
                &&& same_key(final(self).keys()[api_key.id@], *api_key)
                &&& forall|k: Seq<char>|
                    k != api_key.id@ && #[trigger] old(self).keys().contains_key(k) ==> final(self).keys()[k] == old(self).keys()[k]
            } else {
                &&& r matches Err(e) && e is NotFound
                &&& final(self).keys() == old(self).keys()
            },
    {
        if self.keys.contains_key(api_key.id.as_str()) {
            let stored = api_key.duplicate();
            self.keys.insert(api_key.id.clone(), stored);
            assert(self.keys@.dom() =~= old(self).keys@.dom());
            Ok(())
        } else {
            Err(ApiKeyError::NotFound)
        }
    }

    /// Deletes the key with id `id` and its digest's index entry;
    /// `NotFound` when there is none.
    pub fn delete_api_key(&mut self, id: &str) -> (r: Result<(), ApiKeyError>)
        requires
            old(self).wf(),
        ensures
            final(self).wf(),
            if old(self).keys().contains_key(id@) {
                &&& r is Ok
                &&& final(self).keys() == old(self).keys().remove(id@)
                &&& final(self).index() == old(self).index().remove(
                    old(self).keys()[id@].key_hash@,
                )
            } else {
                &&& r matches Err(e) && e is NotFound
                &&& final(self).keys() == old(self).keys()
                &&& final(self).index() == old(self).index()
            },
    {
        match self.keys.remove(id) {
            Some(k) => {
                let _ = self.key_hash_index.remove(k.key_hash.as_str());
                Ok(())
            },
            None => Err(ApiKeyError::NotFound),
        }
    }
}

// ---------------------------------------------------------------------
// The service
// ---------------------------------------------------------------------

/// The expiry of a key created at `now` that lives `days` days.
pub open spec fn expiry_of(now: Timestamp, days: Option<u32>) -> Option<Timestamp> {
    match days {
        Some(d) => Some(Timestamp { secs: (now.secs + d * SECS_PER_DAY) as i64, nanos: now.nanos }),
        None => None,
    }
}

/// The expiry of a key created at `now` stays within the dates the clock
/// represents.
pub open spec fn expiry_fits(now: Timestamp, days: Option<u32>) -> bool {
    match days {
        Some(d) => now.secs + d * SECS_PER_DAY <= MAX_UTC_SECS,
        None => true,
    }
}

/// What authenticating the raw key `raw` at `now` yields: the key it
/// authenticates as, `None` for an unknown key, or the reason it is
/// refused.
pub open spec fn authentication(
    keys: Map<Seq<char>, ApiKey>,
    index: Map<Seq<char>, String>,
    raw: Seq<char>,
    now: Timestamp,
) -> Result<Option<ApiKey>, ApiKeyError> {
    match key_for_hash(keys, index, api_key_hash(raw)) {
        None => Ok(None),
        Some(k) => if !k.is_active {
            Err(ApiKeyError::Inactive)
        } else if k.expires_at matches Some(e) && later(now, e) {
            Err(ApiKeyError::Expired)
        } else {
            Ok(Some(k))
        },
    }
}

/// The account that stands for the key `k`.
pub open spec fn api_key_account(u: UserData, k: ApiKey) -> bool {
    &&& u.id@ == "apikey_"@ + k.id@
    &&& u.username@ == "apikey_"@ + k.name@
    &&& u.email@ == "apikey_"@ + k.id@ + "@wikify.local"@
    &&& u.display_name matches Some(d) && d@ == "API Key: "@ + k.name@
    &&& u.password_hash@ == Seq::<char>::empty()
    &&& u.permissions@ == k.permissions@
    &&& u.is_admin == k.permissions@.contains(Permission::Admin)
    &&& u.created_at == k.created_at
}

/// Why a user may not delete a key.
#[derive(Debug, PartialEq, Eq, Structural)]
pub enum DeleteRefusal {
    /// There is no key with that id.
    NotFound,
    /// The key belongs to another user.
    NotOwner,
}

/// The API key service.
#[derive(Debug)]
pub struct ApiKeyService {
    storage: MemoryApiKeyStorage,
}

impl ApiKeyService {
    /// The service's storage invariant.
    pub closed spec fn wf(&self) -> bool {
        self.storage.wf()
    }

    /// The stored keys, by id.
    pub closed spec fn keys(&self) -> Map<Seq<char>, ApiKey> {
        self.storage.keys()
    }

    /// The digest index.
    pub closed spec fn index(&self) -> Map<Seq<char>, String> {
        self.storage.index()
    }

    /// A service over `storage`.
    pub fn new(storage: MemoryApiKeyStorage) -> (s: Self)
        requires
            storage.wf(),
        ensures
            s.wf(),
            s.keys() == storage.keys(),
            s.index() == storage.index(),
    {
        ApiKeyService { storage }
    }

    /// A service over empty in-memory storage.
    pub fn memory() -> (s: Self)
        ensures
            s.wf(),
            s.keys() == Map::<Seq<char>, ApiKey>::empty(),
            s.index() == Map::<Seq<char>, String>::empty(),
    {
        ApiKeyService { storage: MemoryApiKeyStorage::new() }
    }

    /// The storage.
    pub fn storage(&self) -> (s: &MemoryApiKeyStorage)
        requires
            self.wf(),
        ensures
            s.wf(),
            s.keys() == self.keys(),
            s.index() == self.index(),
    {
        &self.storage
    }

    /// Deletes the key with id `id` from the storage (see
    /// `MemoryApiKeyStorage::delete_api_key`).
    pub fn delete_api_key(&mut self, id: &str) -> (r: Result<(), ApiKeyError>)
        requires
            old(self).wf(),
        ensures
            final(self).wf(),
            if old(self).keys().contains_key(id@) {
                &&& r is Ok
                &&& final(self).keys() == old(self).keys().remove(id@)
                &&& final(self).index() == old(self).index().remove(old(self).keys()[id@].key_hash@)
            } else {
                &&& r matches Err(e) && e is NotFound
                &&& final(self).keys() == old(self).keys()
                &&& final(self).index() == old(self).index()
            },
    {
        self.storage.delete_api_key(id)
    }

    /// Deletes the key with id `key_id` for the user `user_id`: a key that
    /// does not exist is `NotFound` and a key of another user `NotOwner`,
    /// and both leave the keys as they were; otherwise the key is deleted
    /// and its name returned.
    pub fn delete_owned(&mut self, user_id: &str, key_id: &str) -> (r: Result<String, DeleteRefusal>)
        requires
            old(self).wf(),
        ensures
            final(self).wf(),
            !old(self).keys().contains_key(key_id@) ==> {
                &&& r == Err::<String, DeleteRefusal>(DeleteRefusal::NotFound)
                &&& final(self).keys() == old(self).keys()
                &&& final(self).index() == old(self).index()
            },
            old(self).keys().contains_key(key_id@) && old(self).keys()[key_id@].user_id@ != user_id@ ==> {
                &&& r == Err::<String, DeleteRefusal>(DeleteRefusal::NotOwner)
                &&& final(self).keys() == old(self).keys()
                &&& final(self).index() == old(self).index()
            },
            old(self).keys().contains_key(key_id@) && old(self).keys()[key_id@].user_id@ == user_id@ ==> {
                &&& r matches Ok(name) && name == old(self).keys()[key_id@].name
                &&& final(self).keys() == old(self).keys().remove(key_id@)
                &&& final(self).index() == old(self).index().remove(old(self).keys()[key_id@].key_hash@)
            },
    {
        let key = match self.storage.get_api_key_by_id(key_id) {
            Ok(Some(k)) => k,
            _ => {
                return Err(DeleteRefusal::NotFound);
            },
        };
        if !str_eq(key.user_id.as_str(), user_id) {
            return Err(DeleteRefusal::NotOwner);
        }
        let _ = self.delete_api_key(key_id);
        Ok(key.name)
    }

    /// Creates a key for `user_id` at `now`: a fresh id and raw key, the
    /// raw key's digest stored, active, never used, expiring
    /// `expires_in_days` days after `now` when that is given.  The answer
    /// carries the raw key.
    pub fn create_api_key_at(
        &mut self,
        user_id: &str,
        request: CreateApiKeyRequest,
        now: Timestamp,
    ) -> (r: Result<ApiKeyResponse, ApiKeyError>)
        requires
            old(self).wf(),
            expiry_fits(now, request.expires_in_days),
        ensures
            final(self).wf(),
            r matches Ok(resp) && {
                &&& hyphenated_uuid(resp.id@)
                &&& resp.key matches Some(raw) && {
                    &&& raw_key_shape(raw@)
                    &&& final(self).index() == old(self).index().insert(
                        api_key_hash(raw@),
                        final(self).index()[api_key_hash(raw@)],
                    )
                    &&& final(self).index()[api_key_hash(raw@)]@ == resp.id@
                    &&& final(self).keys()[resp.id@].key_hash@ == api_key_hash(raw@)
                }
                &&& resp.name == request.name
                &&& resp.permissions@ == request.permissions@
                &&& resp.created_at == now
                &&& resp.expires_at == expiry_of(now, request.expires_in_days)
                &&& resp.last_used_at is None
                &&& resp.is_active
                &&& final(self).keys().dom() == old(self).keys().dom().insert(resp.id@)
                &&& forall|k: Seq<char>|
                    k != resp.id@ && #[trigger] old(self).keys().contains_key(k) ==> final(self).keys()[k] == old(self).keys()[k]
                &&& ({
                    let stored = final(self).keys()[resp.id@];
                    &&& stored.id == resp.id
                    &&& stored.user_id@ == user_id@
                    &&& stored.name == resp.name
                    &&& stored.permissions@ == resp.permissions@
                    &&& stored.created_at == now
                    &&& stored.expires_at == resp.expires_at
                    &&& stored.last_used_at is None
                    &&& stored.is_active
                })
            },
    {
        let raw_key = generate_raw_key();
        let key_hash = hash_key(raw_key.as_str());
        let expires_at = match request.expires_in_days {
            Some(days) => Some(now.plus_days(days)),
            None => None,
        };
        let api_key = ApiKey {
            id: new_uuid(),
            key_hash,
            user_id: owned(user_id),
            name: request.name,
            permissions: request.permissions,
            created_at: now,
            expires_at,
            last_used_at: None,
            is_active: true,
        };
        let _ = self.storage.store_api_key(&api_key);
        Ok(
            ApiKeyResponse {
                id: api_key.id,
                key: Some(raw_key),
                name: api_key.name,
                permissions: api_key.permissions,
                created_at: api_key.created_at,
                expires_at: api_key.expires_at,
                last_used_at: api_key.last_used_at,
                is_active: api_key.is_active,
            },
        )
    }

    /// Creates a key for `user_id` now (as `create_api_key_at` with the
    /// clock's reading).  An expiry past the last date the clock
    /// represents is refused as `InvalidFormat`, and nothing is stored.
    pub fn create_api_key(&mut self, user_id: &str, request: CreateApiKeyRequest) -> (r: Result<
        ApiKeyResponse,
        ApiKeyError,
    >)
        requires
            old(self).wf(),
        ensures
            final(self).wf(),
            match r {
                Ok(resp) => {
                    &&& hyphenated_uuid(resp.id@)
                    &&& 0 <= resp.created_at.secs <= MAX_UTC_SECS
                    &&& expiry_fits(resp.created_at, request.expires_in_days)
                    &&& resp.key matches Some(raw) && {
                        &&& raw_key_shape(raw@)
                        &&& final(self).index() == old(self).index().insert(
                            api_key_hash(raw@),
                            final(self).index()[api_key_hash(raw@)],
                        )
                        &&& final(self).index()[api_key_hash(raw@)]@ == resp.id@
                        &&& final(self).keys()[resp.id@].key_hash@ == api_key_hash(raw@)
                    }
                    &&& resp.name == request.name
                    &&& resp.permissions@ == request.permissions@
                    &&& resp.expires_at == expiry_of(resp.created_at, request.expires_in_days)
                    &&& resp.last_used_at is None
                    &&& resp.is_active
                    &&& final(self).keys().dom() == old(self).keys().dom().insert(resp.id@)
                    &&& forall|k: Seq<char>|
                        k != resp.id@ && #[trigger] old(self).keys().contains_key(k) ==> final(self).keys()[k] == old(self).keys()[k]
                    &&& ({
                        let stored = final(self).keys()[resp.id@];
                        &&& stored.id == resp.id
                        &&& stored.user_id@ == user_id@
                        &&& stored.name == resp.name
                        &&& stored.permissions@ == resp.permissions@
                        &&& stored.created_at == resp.created_at
                        &&& stored.expires_at == resp.expires_at
                        &&& stored.last_used_at is None
                        &&& stored.is_active
                    })
                },
                Err(e) => {
                    &&& e is InvalidFormat
                    &&& exists|now: Timestamp| 0 <= now.secs <= MAX_UTC_SECS && !expiry_fits(
                        now,
                        request.expires_in_days,
                    )
                    &&& final(self).keys() == old(self).keys()
                    &&& final(self).index() == old(self).index()
                },
            },
    {
        let now = utc_now();
        let fits = match request.expires_in_days {
            Some(days) => {
                let d: i64 = days as i64;
                d <= (MAX_UTC_SECS - now.secs) / SECS_PER_DAY
            },
            None => true,
        };
        if !fits {
            proof {
                let d = request.expires_in_days->0 as int;
                let m = MAX_UTC_SECS - now.secs;
                assert(d * SECS_PER_DAY > m) by (nonlinear_arith)
                    requires
                        d > m / 86400,
                        m >= 0,
                        SECS_PER_DAY == 86400,
                ;
                assert(!expiry_fits(now, request.expires_in_days));
            }
            return Err(ApiKeyError::InvalidFormat);
        }
        self.create_api_key_at(user_id, request, now)
    }

    /// Authenticates the raw key `raw_key` at `now`: `None` for an unknown
    /// key, `Inactive` or `Expired` for a key that may not be used, and
    /// otherwise the account that stands for the key, whose time of last
    /// use becomes `now`.
    pub fn authenticate_api_key_at(&mut self, raw_key: &str, now: Timestamp) -> (r: Result<
        Option<UserData>,
        ApiKeyError,
    >)
        requires
            old(self).wf(),
        ensures
            final(self).wf(),
            final(self).index() == old(self).index(),
            match authentication(old(self).keys(), old(self).index(), raw_key@, now) {
                Ok(Some(k)) => {
                    &&& r matches Ok(Some(u)) && api_key_account(u, k)
                    &&& final(self).keys().dom() == old(self).keys().dom()
                    &&& ({
                        let after = final(self).keys()[k.id@];
                        &&& after.last_used_at == Some(now)
                        &&& same_key(after, ApiKey { last_used_at: Some(now), ..k })
                    })
                    &&& forall|j: Seq<char>|
                        j != k.id@ && #[trigger] old(self).keys().contains_key(j) ==> final(self).keys()[j] == old(self).keys()[j]
                },
                Ok(None) => r matches Ok(None) && final(self).keys() == old(self).keys(),
                Err(e) => r matches Err(f) && f == e && final(self).keys() == old(self).keys(),
            },
    {
        let key_hash = hash_key(raw_key);
        let found = self.storage.get_api_key_by_hash(key_hash.as_str());
        match found {
            Ok(Some(mut api_key)) => {
                if !api_key.is_active {
                    return Err(ApiKeyError::Inactive);
                }
                match api_key.expires_at {
                    Some(expires_at) => {
                        if now.is_after(&expires_at) {
                            return Err(ApiKeyError::Expired);
                        }
                    },
                    None => {},
                }
                api_key.last_used_at = Some(now);
                proof {
                    assert(self.storage.keys().contains_key(api_key.id@));
                }
                let _ = self.storage.update_api_key(&api_key);
                let is_admin = contains_permission(api_key.permissions.as_slice(), Permission::Admin);
                let user = UserData {
                    id: concat("apikey_", api_key.id.as_str()),
                    username: concat("apikey_", api_key.name.as_str()),
                    email: concat3("apikey_", api_key.id.as_str(), "@wikify.local"),
                    display_name: Some(concat("API Key: ", api_key.name.as_str())),
                    password_hash: String::new(),
                    permissions: api_key.permissions,
                    is_admin,
                    created_at: api_key.created_at,
                };
                Ok(Some(user))
            },
            _ => Ok(None),
        }
    }

    /// Authenticates the raw key `raw_key` now (as `authenticate_api_key_at`
    /// with the clock's reading).  Whatever the reading, an unknown key
    /// gives `None`, an inactive key `Inactive`, and an active key without
    /// expiry its account; an active key with an expiry gives its account
    /// or `Expired`.
    pub fn authenticate_api_key(&mut self, raw_key: &str) -> (r: Result<Option<UserData>, ApiKeyError>)
        requires
            old(self).wf(),
        ensures
            final(self).wf(),
            final(self).index() == old(self).index(),
            match key_for_hash(old(self).keys(), old(self).index(), api_key_hash(raw_key@)) {
                None => r matches Ok(None) && final(self).keys() == old(self).keys(),
                Some(k) => if !k.is_active {
                    r matches Err(e) && e is Inactive && final(self).keys() == old(self).keys()
                } else if k.expires_at is None {
                    r matches Ok(Some(u)) && api_key_account(u, k)
                } else {
                    ||| r matches Ok(Some(u)) && api_key_account(u, k)
                    ||| r matches Err(e) && e is Expired && final(self).keys() == old(self).keys()
                },
            },
    {
        let now = utc_now();
        self.authenticate_api_key_at(raw_key, now)
    }
}

// ---------------------------------------------------------------------
// Laws
// ---------------------------------------------------------------------

/// A key that was created, and is active and not past its expiry, is
/// authenticated by its raw key as itself.
pub proof fn law_created_key_authenticates(
    keys: Map<Seq<char>, ApiKey>,
    index: Map<Seq<char>, String>,
    raw: Seq<char>,
    now: Timestamp,
)
    requires
        index.contains_key(api_key_hash(raw)),
        keys.contains_key(index[api_key_hash(raw)]@),
        keys[index[api_key_hash(raw)]@].is_active,
        keys[index[api_key_hash(raw)]@].expires_at matches Some(e) ==> !later(now, e),
    ensures
        authentication(keys, index, raw, now) == Ok::<Option<ApiKey>, ApiKeyError>(
            Some(keys[index[api_key_hash(raw)]@]),
        ),
{
}

/// Once a key is deleted, no raw key authenticates as it.
pub proof fn law_deleted_key_unusable(
    keys: Map<Seq<char>, ApiKey>,
    index: Map<Seq<char>, String>,
    id: Seq<char>,
    raw: Seq<char>,
    now: Timestamp,
)
    requires
        forall|k: Seq<char>| #[trigger] keys.contains_key(k) ==> keys[k].id@ == k,
        keys.contains_key(id),
    ensures
        authentication(keys.remove(id), index.remove(keys[id].key_hash@), raw, now) matches Ok(
            Some(k),
        ) ==> k.id@ != id,
{
    let after = keys.remove(id);
    let idx = index.remove(keys[id].key_hash@);
    let h = api_key_hash(raw);
    if idx.contains_key(h) && after.contains_key(idx[h]@) {
        assert(keys.contains_key(idx[h]@));
        assert(after[idx[h]@] == keys[idx[h]@]);
    }
}

/// A key past its expiry is refused, whatever else holds of it.
pub proof fn law_expired_key_refused(
    keys: Map<Seq<char>, ApiKey>,
    index: Map<Seq<char>, String>,
    raw: Seq<char>,
    now: Timestamp,
)
    requires
        key_for_hash(keys, index, api_key_hash(raw)) is Some,
        key_for_hash(keys, index, api_key_hash(raw)).unwrap().is_active,
        key_for_hash(keys, index, api_key_hash(raw)).unwrap().expires_at matches Some(e) && later(
            now,
            e,
        ),
    ensures
        authentication(keys, index, raw, now) == Err::<Option<ApiKey>, ApiKeyError>(
            ApiKeyError::Expired,
        ),
{
}

} // verus!
