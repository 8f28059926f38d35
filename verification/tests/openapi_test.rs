use wikify_web::openapi::{get_openapi_json, get_openapi_yaml, ApiDoc, ApiMethod};

#[test]
fn test_openapi_generation() {
    let openapi = ApiDoc::openapi();
    assert_eq!(openapi.info.title, "Wikify Web API");
    assert_eq!(openapi.info.version, "0.1.0");
    assert!(!openapi.paths.paths.is_empty());
}

#[test]
fn test_openapi_json() {
    let json = get_openapi_json();
    assert!(json.contains("Wikify Web API"));
    assert!(json.contains("0.1.0"));
}

#[test]
fn test_openapi_yaml() {
    let yaml = get_openapi_yaml();
    assert!(yaml.contains("Wikify Web API"));
    assert!(yaml.contains("0.1.0"));
}

#[test]
fn document_lists_operations_servers_and_security() {
    let doc = ApiDoc::openapi();
    assert_eq!(doc.paths.paths.len(), 26);
    assert_eq!(doc.paths.paths[0].path, "/api/health");
    assert_eq!(doc.paths.paths[0].method, ApiMethod::Get);
    assert_eq!(doc.servers.len(), 2);
    assert_eq!(doc.servers[0].url, "http://localhost:8080");
    assert_eq!(doc.tags.len(), 8);
    let components = doc.components.expect("components");
    assert_eq!(components.security_schemes, vec![("api_key".to_string(), "X-API-Key".to_string())]);
}

#[test]
fn json_carries_paths_and_security_scheme() {
    let json = get_openapi_json();
    assert!(json.contains("/api/repositories/{repository_id}/reindex"));
    assert!(json.contains("X-API-Key"));
    assert!(json.contains("https://api.wikify.dev"));
}

#[test]
fn operations_carry_ids_and_path_parameters() {
    let doc = ApiDoc::openapi();
    assert_eq!(doc.paths.paths[0].operation_id, "health_check");
    assert!(doc.paths.paths[0].parameters.is_empty());
    let reindex = doc
        .paths
        .paths
        .iter()
        .find(|op| op.path == "/api/repositories/{repository_id}/reindex")
        .expect("reindex operation");
    assert_eq!(reindex.operation_id, "reindex_repository");
    assert_eq!(
        reindex.parameters,
        vec![("repository_id".to_string(), "Repository ID to reindex".to_string())]
    );
    let json = get_openapi_json();
    assert!(json.contains("\"operationId\": \"reindex_repository\""));
    assert!(json.contains("\"in\": \"path\""));
    assert!(json.contains("Repository ID to reindex"));
    let yaml = get_openapi_yaml();
    assert!(yaml.contains("operationId: get_research_template"));
}
