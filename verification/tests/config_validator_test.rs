use wikify_web::config::WebConfig;
use wikify_web::config_validator::{
    validate_config, ConfigFacts, ConfigValidator, EnvironmentValues, ErrorSeverity, ValidationError,
    ValidationWarning,
};
use wikify_web::error::WebError;

fn good_facts() -> ConfigFacts {
    ConfigFacts {
        host_is_ip: true,
        bind_failed: false,
        database_parent: None,
        static_dir_exists: true,
        static_dir_is_dir: true,
        static_index_exists: true,
    }
}

#[test]
fn default_config_is_valid() {
    let r = ConfigValidator::validate_config(&WebConfig::default(), &good_facts());
    assert!(r.is_valid);
    assert!(r.errors.is_empty());
    assert!(r.warnings.is_empty());
    assert_eq!(
        r.recommendations,
        vec![
            "Consider setting up monitoring and logging for production deployment".to_string(),
            "Configure proper backup strategies for your database".to_string(),
        ]
    );
}

#[test]
fn empty_host_and_zero_port_are_critical() {
    let mut config = WebConfig::default();
    config.host = String::new();
    config.port = 0;
    let r = ConfigValidator::validate_config(&config, &good_facts());
    assert!(!r.is_valid);
    assert_eq!(r.errors.len(), 2);
    assert_eq!(r.errors[0].field, "host");
    assert_eq!(r.errors[0].message, "Host cannot be empty");
    assert_eq!(r.errors[0].severity, ErrorSeverity::Critical);
    assert_eq!(r.errors[1].message, "Port cannot be 0");
    assert!(matches!(validate_config(&config, &good_facts()), Err(WebError::Config(m)) if m == "Configuration validation failed"));
}

#[test]
fn bad_host_is_high_but_valid() {
    let mut config = WebConfig::default();
    config.host = "not a host".to_string();
    let mut facts = good_facts();
    facts.host_is_ip = false;
    let r = ConfigValidator::validate_config(&config, &facts);
    assert!(r.is_valid);
    assert_eq!(r.errors[0].message, "Invalid host format: not a host");
    assert_eq!(r.errors[0].severity, ErrorSeverity::High);
    config.host = "localhost".to_string();
    assert!(ConfigValidator::validate_config(&config, &facts).errors.is_empty());
}

#[test]
fn production_warnings() {
    let mut config = WebConfig::default();
    config.port = 80;
    config.database_url = None;
    config.host = "0.0.0.0".to_string();
    let mut facts = good_facts();
    facts.bind_failed = true;
    let r = ConfigValidator::validate_config(&config, &facts);
    assert_eq!(r.warnings.len(), 3);
    assert_eq!(r.warnings[0].message, "Using privileged port 80 in production");
    assert_eq!(r.warnings[1].message, "Cannot bind to address 0.0.0.0:80");
    assert_eq!(r.warnings[2].message, "No database configured for production");
    assert_eq!(r.recommendations.len(), 4);
    assert_eq!(r.recommendations[0], "Consider using a reverse proxy (nginx, Apache) when binding to 0.0.0.0");
}

#[test]
fn dev_mode_advice() {
    let mut config = WebConfig::default();
    config.dev_mode = true;
    config.database_url = Some(":memory:".to_string());
    let r = ConfigValidator::validate_config(&config, &good_facts());
    assert_eq!(r.warnings.len(), 1);
    assert_eq!(r.warnings[0].field, "dev_mode");
    assert_eq!(r.recommendations[0], "Development mode enables additional logging and debugging features");
    config.dev_mode = false;
    let r = ConfigValidator::validate_config(&config, &good_facts());
    assert_eq!(r.warnings[0].message, "Using in-memory database in production");
}

#[test]
fn database_and_static_errors() {
    let mut config = WebConfig::default();
    config.database_url = Some("data/app.db".to_string());
    config.static_dir = Some("web".to_string());
    let mut facts = good_facts();
    facts.database_parent = Some(("data".to_string(), false));
    facts.static_dir_is_dir = false;
    let r = ConfigValidator::validate_config(&config, &facts);
    assert_eq!(r.errors.len(), 2);
    assert_eq!(r.errors[0].message, "Database directory does not exist: data");
    assert_eq!(r.errors[1].message, "Static path is not a directory: web");
    assert_eq!(r.errors[1].severity, ErrorSeverity::Medium);
    facts.static_dir_is_dir = true;
    facts.static_index_exists = false;
    let r = ConfigValidator::validate_config(&config, &facts);
    assert_eq!(r.warnings[0].message, "No index.html found in static directory");
    config.static_dir = Some(String::new());
    let r = ConfigValidator::validate_config(&config, &facts);
    assert_eq!(r.errors[1].message, "Static directory cannot be empty if provided");
}

#[test]
fn environment_checks() {
    let env = EnvironmentValues {
        wikify_host: Some(String::new()),
        wikify_port: None,
        wikify_database_url: None,
        wikify_static_dir: None,
        wikify_dev_mode: None,
        rust_log: Some("wikify=verbose".to_string()),
    };
    let r = ConfigValidator::validate_environment(&env);
    assert!(r.is_valid);
    assert_eq!(r.warnings.len(), 2);
    assert_eq!(r.warnings[0].message, "Environment variable WIKIFY_HOST is empty");
    assert_eq!(r.warnings[0].recommendation, "Set a proper value for WIKIFY_HOST");
    assert_eq!(r.warnings[1].message, "RUST_LOG may not contain valid log levels");
    assert!(r.recommendations.is_empty());
    let quiet = EnvironmentValues {
        wikify_host: None,
        wikify_port: None,
        wikify_database_url: None,
        wikify_static_dir: None,
        wikify_dev_mode: None,
        rust_log: None,
    };
    let r = ConfigValidator::validate_environment(&quiet);
    assert_eq!(r.recommendations, vec!["Set RUST_LOG environment variable for proper logging".to_string()]);
}

#[test]
fn report_lines() {
    let e = ValidationError { field: "port".to_string(), message: "Port cannot be 0".to_string(), severity: ErrorSeverity::Critical };
    assert_eq!(ConfigValidator::error_line(&e), "🚨 port: Port cannot be 0");
    let w = ValidationWarning { field: "f".to_string(), message: "m".to_string(), recommendation: "r".to_string() };
    assert_eq!(ConfigValidator::warning_line(&w), "⚠️  f: m (Recommendation: r)");
    assert_eq!(ConfigValidator::recommendation_line("x"), "   • x");
    assert_eq!(ErrorSeverity::Low.icon(), "ℹ️");
}
