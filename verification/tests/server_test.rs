use wikify_web::config::{application_mode, ApplicationMode, WebConfig};
use wikify_web::server::WikifyServerBuilder;

#[test]
fn test_server_builder() {
    let builder = WikifyServerBuilder::new()
        .host("localhost")
        .port(3000)
        .dev_mode(true);

    assert_eq!(builder.config.host, "localhost");
    assert_eq!(builder.config.port, 3000);
    assert!(builder.config.dev_mode);
}

#[test]
fn builder_starts_from_defaults() {
    let builder = WikifyServerBuilder::default();
    assert_eq!(builder.config.host, "127.0.0.1");
    assert_eq!(builder.config.port, 8080);
    assert!(!builder.config.dev_mode);
    assert_eq!(builder.config.static_dir, None);
    assert_eq!(builder.config.database_url, Some("sqlite:./data/wikify.db".to_string()));
    assert_eq!(builder.config.permission_mode, Some("restricted".to_string()));
}

#[test]
fn builder_sets_paths() {
    let builder = WikifyServerBuilder::new().static_dir("web/dist").database_url(":memory:");
    assert_eq!(builder.config.static_dir, Some("web/dist".to_string()));
    assert_eq!(builder.config.database_url, Some(":memory:".to_string()));
    assert_eq!(builder.config.port, 8080);
}

#[test]
fn address_joins_host_and_port() {
    let config = WebConfig::default();
    assert_eq!(config.address(), "127.0.0.1:8080");
    let other = WikifyServerBuilder::new().host("0.0.0.0").port(65535).config;
    assert_eq!(other.address(), "0.0.0.0:65535");
}

#[test]
fn database_url_expands_home() {
    let mut config = WebConfig::default();
    config.database_url = None;
    // the fallback already names `.wikify`, and the expansion adds another
    assert_eq!(config.database_url_in(Some("/home/ann")), "sqlite:/home/ann/.wikify/.wikify/wikify.db");
    config.database_url = Some("sqlite:~/db/x.db".to_string());
    assert_eq!(config.database_url_in(Some("/home/ann/")), "sqlite:/home/ann/.wikify/db/x.db");
    config.database_url = None;
    assert_eq!(config.database_url_in(None), "sqlite:~/.wikify/wikify.db");
    config.database_url = Some("sqlite:./data/x.db".to_string());
    assert_eq!(config.database_url_in(Some("/home/ann")), "sqlite:./data/x.db");
    config.database_url = Some("sqlite:~//abs.db".to_string());
    assert_eq!(config.database_url_in(Some("/home/ann")), "sqlite:/abs.db");
}

#[test]
fn permission_mode_selects_application_mode() {
    assert_eq!(application_mode(&Some("restricted".to_string())), ApplicationMode::Restricted);
    assert_eq!(application_mode(&Some("open".to_string())), ApplicationMode::Open);
    assert_eq!(application_mode(&Some("local".to_string())), ApplicationMode::Open);
    assert_eq!(application_mode(&None), ApplicationMode::Open);
}
