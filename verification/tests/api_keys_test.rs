use wikify_web::api_keys::{
    hash_key, ApiKey, ApiKeyError, ApiKeyService, CreateApiKeyRequest, DeleteRefusal, MemoryApiKeyStorage,
};
use wikify_web::permissions::Permission;
use wikify_web::time::Timestamp;

fn request(name: &str, permissions: Vec<Permission>, days: Option<u32>) -> CreateApiKeyRequest {
    CreateApiKeyRequest { name: name.to_string(), permissions, expires_in_days: days }
}

#[test]
fn test_api_key_creation_and_authentication() {
    let mut service = ApiKeyService::memory();
    let created = service
        .create_api_key("user-1", request("ci", vec![Permission::Query, Permission::GenerateWiki], Some(30)))
        .expect("created");
    let raw = created.key.clone().expect("raw key on creation");
    assert!(raw.starts_with("wk_"));
    assert_eq!(raw.len(), 35);
    assert!(created.is_active);
    assert_eq!(created.name, "ci");
    assert_eq!(created.last_used_at, None);
    let expires = created.expires_at.expect("expiry");
    assert_eq!(expires.secs, created.created_at.secs + 30 * 86_400);

    let user = service.authenticate_api_key(&raw).expect("no error").expect("known key");
    assert_eq!(user.id, format!("apikey_{}", created.id));
    assert_eq!(user.username, "apikey_ci");
    assert_eq!(user.email, format!("apikey_{}@wikify.local", created.id));
    assert_eq!(user.display_name, Some("API Key: ci".to_string()));
    assert_eq!(user.password_hash, "");
    assert_eq!(user.permissions, vec![Permission::Query, Permission::GenerateWiki]);
    assert!(!user.is_admin);

    let stored = service.storage().get_api_key_by_id(&created.id).unwrap().unwrap();
    assert!(stored.last_used_at.is_some());
    assert_eq!(stored.user_id, "user-1");
}

#[test]
fn test_api_key_with_apikey_prefix() {
    let mut service = ApiKeyService::memory();
    let created = service.create_api_key("admin", request("ops", vec![Permission::Admin], None)).unwrap();
    let raw = created.key.unwrap();
    let user = service.authenticate_api_key(&raw).unwrap().unwrap();
    assert!(user.is_admin);
    assert!(created.expires_at.is_none());
}

#[test]
fn test_api_key_management() {
    let mut service = ApiKeyService::memory();
    let a = service.create_api_key("u1", request("a", vec![], None)).unwrap();
    let _b = service.create_api_key("u1", request("b", vec![], None)).unwrap();
    let _c = service.create_api_key("u2", request("c", vec![], None)).unwrap();
    let listed = service.storage().list_user_api_keys("u1").unwrap();
    assert_eq!(listed.len(), 2);
    assert!(listed.iter().all(|k| k.user_id == "u1"));

    let mut storage = MemoryApiKeyStorage::new();
    let key = ApiKey {
        id: a.id.clone(),
        key_hash: hash_key(&a.key.clone().unwrap()),
        user_id: "u1".to_string(),
        name: "a".to_string(),
        permissions: vec![],
        created_at: a.created_at,
        expires_at: None,
        last_used_at: None,
        is_active: true,
    };
    storage.store_api_key(&key).unwrap();
    assert!(storage.delete_api_key(&a.id).is_ok());
    assert!(matches!(storage.delete_api_key(&a.id), Err(ApiKeyError::NotFound)));
    assert!(storage.get_api_key_by_hash(&key.key_hash).unwrap().is_none());
}

#[test]
fn unknown_key_is_not_an_error() {
    let mut service = ApiKeyService::memory();
    assert!(service.authenticate_api_key("wk_nothing").unwrap().is_none());
}

#[test]
fn inactive_and_expired_keys_are_refused() {
    let mut storage = MemoryApiKeyStorage::new();
    let raw = "wk_0123456789abcdef0123456789abcdef";
    let mut key = ApiKey {
        id: "k1".to_string(),
        key_hash: hash_key(raw),
        user_id: "u".to_string(),
        name: "n".to_string(),
        permissions: vec![Permission::Query],
        created_at: Timestamp { secs: 100, nanos: 0 },
        expires_at: Some(Timestamp { secs: 200, nanos: 0 }),
        last_used_at: None,
        is_active: true,
    };
    storage.store_api_key(&key).unwrap();
    let mut service = ApiKeyService::new(storage);
    assert!(matches!(
        service.authenticate_api_key_at(raw, Timestamp { secs: 201, nanos: 0 }),
        Err(ApiKeyError::Expired)
    ));
    let user = service.authenticate_api_key_at(raw, Timestamp { secs: 200, nanos: 0 }).unwrap().unwrap();
    assert_eq!(user.id, "apikey_k1");
    let used = service.storage().get_api_key_by_id("k1").unwrap().unwrap();
    assert_eq!(used.last_used_at, Some(Timestamp { secs: 200, nanos: 0 }));

    let mut storage = MemoryApiKeyStorage::new();
    key.is_active = false;
    storage.store_api_key(&key).unwrap();
    let mut service = ApiKeyService::new(storage);
    assert!(matches!(
        service.authenticate_api_key_at(raw, Timestamp { secs: 150, nanos: 0 }),
        Err(ApiKeyError::Inactive)
    ));
}

#[test]
fn hash_is_hex_sha256_of_the_key() {
    assert_eq!(hash_key("abc"), "ba7816bf8f01cfea414140de5dae2223b00361a396177a9cb410ff61f20015ad");
    assert_ne!(hash_key("wk_x"), "wk_x");
}

#[test]
fn update_of_missing_key_is_not_found() {
    let mut storage = MemoryApiKeyStorage::new();
    let key = ApiKey {
        id: "missing".to_string(),
        key_hash: "h".to_string(),
        user_id: "u".to_string(),
        name: "n".to_string(),
        permissions: vec![],
        created_at: Timestamp { secs: 0, nanos: 0 },
        expires_at: None,
        last_used_at: None,
        is_active: true,
    };
    assert!(matches!(storage.update_api_key(&key), Err(ApiKeyError::NotFound)));
}

#[test]
fn error_messages() {
    assert_eq!(ApiKeyError::NotFound.message(), "API key not found");
    assert_eq!(ApiKeyError::Storage("disk".to_string()).message(), "Storage error: disk");
}

#[test]
fn created_ids_are_version_4_uuids() {
    let mut service = ApiKeyService::memory();
    let created = service.create_api_key("u", request("k", vec![], None)).expect("created");
    let id: Vec<char> = created.id.chars().collect();
    assert_eq!(id.len(), 36);
    assert_eq!((id[8], id[13], id[18], id[23]), ('-', '-', '-', '-'));
    assert_eq!(id[14], '4');
    assert!("89ab".contains(id[19]));
    let raw: Vec<char> = created.key.unwrap().chars().collect();
    assert_eq!(raw[3 + 12], '4');
    assert!("89ab".contains(raw[3 + 16]));
    assert!(raw[3..].iter().all(|c| c.is_ascii_hexdigit() && !c.is_ascii_uppercase()));
}

#[test]
fn deleting_keys_checks_the_owner() {
    let mut service = ApiKeyService::memory();
    let created = service.create_api_key("alice", request("ci", vec![], None)).expect("created");
    assert_eq!(service.delete_owned("alice", "missing"), Err(DeleteRefusal::NotFound));
    assert_eq!(service.delete_owned("bob", &created.id), Err(DeleteRefusal::NotOwner));
    assert!(service.storage().get_api_key_by_id(&created.id).unwrap().is_some());
    assert_eq!(service.delete_owned("alice", &created.id), Ok("ci".to_string()));
    assert!(service.storage().get_api_key_by_id(&created.id).unwrap().is_none());
}
