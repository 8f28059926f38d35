//! Validation of the server configuration and of the environment.
//!
//! What validation needs to know of the machine (whether the host is an IP
//! address, whether the address can be bound, whether directories exist)
//! is gathered by the caller into `ConfigFacts`; the rules that turn a
//! configuration and those facts into errors, warnings and recommendations
//! are here.

use vstd::prelude::*;
use crate::config::WebConfig;
use crate::error::{WebError, WebResult};
use crate::strings::{concat, concat3, contains_seq, decimal, decimal_string, has_prefix, owned, str_contains, str_eq, str_has_prefix};

verus! {

broadcast use vstd::string::group_string_axioms;

/// How serious a configuration error is.
#[derive(Clone, Copy, Debug, PartialEq, Eq, Structural)]
pub enum ErrorSeverity {
    Critical,
    High,
    Medium,
    Low,
}

/// A configuration error.
#[derive(Debug)]
pub struct ValidationError {
    pub field: String,
    pub message: String,
    pub severity: ErrorSeverity,
}

/// A configuration warning.
#[derive(Debug)]
pub struct ValidationWarning {
    pub field: String,
    pub message: String,
    pub recommendation: String,
}

/// The outcome of a validation.
#[derive(Debug)]
pub struct ValidationResult {
    pub is_valid: bool,
    pub errors: Vec<ValidationError>,
    pub warnings: Vec<ValidationWarning>,
    pub recommendations: Vec<String>,
}

/// The configuration validator.
#[derive(Debug)]
pub struct ConfigValidator;

/// What the machine says about a configuration.
#[derive(Debug)]
pub struct ConfigFacts {
    /// The host parses as an IP address.
    pub host_is_ip: bool,
    /// `host:port` parses as a socket address and binding to it failed.
    pub bind_failed: bool,
    /// The parent directory of the database URL taken as a path, as text,
    /// and whether it exists (`None` when the path has no parent).
    pub database_parent: Option<(String, bool)>,
    /// The static directory exists.
    pub static_dir_exists: bool,
    /// The static directory is a directory.
    pub static_dir_is_dir: bool,
    /// The static directory holds an `index.html`.
    pub static_index_exists: bool,
}

/// An error as plain text: field, message, severity.
pub type ErrorView = (Seq<char>, Seq<char>, ErrorSeverity);

/// A warning as plain text: field, message, recommendation.
pub type WarningView = (Seq<char>, Seq<char>, Seq<char>);

/// The plain view of an error.
pub open spec fn error_view(e: ValidationError) -> ErrorView {
    (e.field@, e.message@, e.severity)
}

/// The plain view of a warning.
pub open spec fn warning_view(w: ValidationWarning) -> WarningView {
    (w.field@, w.message@, w.recommendation@)
}

/// The plain views of a list of errors.
pub open spec fn errors_view(v: Seq<ValidationError>) -> Seq<ErrorView> {
    v.map_values(|e: ValidationError| error_view(e))
}

/// The plain views of a list of warnings.
pub open spec fn warnings_view(v: Seq<ValidationWarning>) -> Seq<WarningView> {
    v.map_values(|w: ValidationWarning| warning_view(w))
}

/// The texts of a list of strings.
pub open spec fn texts_view(v: Seq<String>) -> Seq<Seq<char>> {
    v.map_values(|s: String| s@)
}

// ---------------------------------------------------------------------
// The rules
// ---------------------------------------------------------------------

/// Errors about the host and port.
pub open spec fn network_errors(host: Seq<char>, port: u16, host_is_ip: bool) -> Seq<ErrorView> {
    let host_errors = if host.len() == 0 {
        seq![("host"@, "Host cannot be empty"@, ErrorSeverity::Critical)]
    } else if !host_is_ip && host != "localhost"@ {
        seq![("host"@, "Invalid host format: "@ + host, ErrorSeverity::High)]
    } else {
        Seq::empty()
    };
    let port_errors = if port == 0 {
        seq![("port"@, "Port cannot be 0"@, ErrorSeverity::Critical)]
    } else {
        Seq::empty()
    };
    host_errors + port_errors
}

/// Warnings about the host and port.
pub open spec fn network_warnings(host: Seq<char>, port: u16, dev_mode: bool, bind_failed: bool) -> Seq<
    WarningView,
> {
    let port_warnings = if port != 0 && port < 1024 && !dev_mode {
        seq![
            (
                "port"@,
                "Using privileged port "@ + decimal(port as nat) + " in production"@,
                "Consider using a port >= 1024 for production deployment"@,
            ),
        ]
    } else {
        Seq::empty()
    };
    let bind_warnings = if bind_failed {
        seq![
            (
                "address"@,
                "Cannot bind to address "@ + host + ":"@ + decimal(port as nat),
                "Ensure the address is available and not in use"@,
            ),
        ]
    } else {
        Seq::empty()
    };
    port_warnings + bind_warnings
}

/// Errors about the database URL.
pub open spec fn database_errors(url: Option<Seq<char>>, parent: Option<(Seq<char>, bool)>) -> Seq<
    ErrorView,
> {
    match url {
        Some(u) => if u.len() == 0 {
            seq![("database_url"@, "Database URL cannot be empty if provided"@, ErrorSeverity::High)]
        } else if !has_prefix(u, "sqlite:"@) && u != ":memory:"@ && parent is Some && !parent.unwrap().1 {
            seq![
                (
                    "database_url"@,
                    "Database directory does not exist: "@ + parent.unwrap().0,
                    ErrorSeverity::High,
                ),
            ]
        } else {
            Seq::empty()
        },
        None => Seq::empty(),
    }
}

/// Warnings about the database URL.
pub open spec fn database_warnings(url: Option<Seq<char>>, dev_mode: bool) -> Seq<WarningView> {
    match url {
        Some(u) => if u.len() > 0 && u == ":memory:"@ && !dev_mode {
            seq![
                (
                    "database_url"@,
                    "Using in-memory database in production"@,
                    "Use a persistent database file for production"@,
                ),
            ]
        } else {
            Seq::empty()
        },
        None => if !dev_mode {
            seq![
                (
                    "database_url"@,
                    "No database configured for production"@,
                    "Configure a database for session persistence"@,
                ),
            ]
        } else {
            Seq::empty()
        },
    }
}

/// Errors about the static directory.
pub open spec fn static_errors(dir: Option<Seq<char>>, exists: bool, is_dir: bool) -> Seq<ErrorView> {
    match dir {
        Some(d) => if d.len() == 0 {
            seq![("static_dir"@, "Static directory cannot be empty if provided"@, ErrorSeverity::Medium)]
        } else if !exists {
            seq![("static_dir"@, "Static directory does not exist: "@ + d, ErrorSeverity::Medium)]
        } else if !is_dir {
            seq![("static_dir"@, "Static path is not a directory: "@ + d, ErrorSeverity::Medium)]
        } else {
            Seq::empty()
        },
        None => Seq::empty(),
    }
}

/// Warnings about the static directory.
pub open spec fn static_warnings(
    dir: Option<Seq<char>>,
    exists: bool,
    is_dir: bool,
    index_exists: bool,
) -> Seq<WarningView> {
    match dir {
        Some(d) => if d.len() > 0 && exists && is_dir && !index_exists {
            seq![
                (
                    "static_dir"@,
                    "No index.html found in static directory"@,
                    "Ensure index.html exists for proper SPA fallback"@,
                ),
            ]
        } else {
            Seq::empty()
        },
        None => Seq::empty(),
    }
}

/// Warnings about development mode.
pub open spec fn dev_mode_warnings(dev_mode: bool) -> Seq<WarningView> {
    if dev_mode {
        seq![
            (
                "dev_mode"@,
                "Development mode is enabled"@,
                "Disable development mode for production deployment"@,
            ),
        ]
    } else {
        Seq::empty()
    }
}

/// Recommendations about development mode.
pub open spec fn dev_mode_recommendations(dev_mode: bool) -> Seq<Seq<char>> {
    if dev_mode {
        seq![
            "Development mode enables additional logging and debugging features"@,
            "Ensure dev_mode is set to false for production"@,
        ]
    } else {
        Seq::empty()
    }
}

/// General recommendations.
pub open spec fn general_recommendations(host: Seq<char>, has_database: bool) -> Seq<Seq<char>> {
    (if host == "0.0.0.0"@ {
        seq!["Consider using a reverse proxy (nginx, Apache) when binding to 0.0.0.0"@]
    } else {
        Seq::empty()
    }) + (if !has_database {
        seq!["Configure a database for better session management and persistence"@]
    } else {
        Seq::empty()
    }) + seq![
        "Consider setting up monitoring and logging for production deployment"@,
        "Configure proper backup strategies for your database"@,
    ]
}

/// The text of an optional string.
pub open spec fn opt_view(o: Option<String>) -> Option<Seq<char>> {
    match o {
        Some(s) => Some(s@),
        None => None,
    }
}

/// The plain view of the database facts.
pub open spec fn parent_view(o: Option<(String, bool)>) -> Option<(Seq<char>, bool)> {
    match o {
        Some((p, e)) => Some((p@, e)),
        None => None,
    }
}

/// All errors found in `c` given `f`.
pub open spec fn config_errors(c: WebConfig, f: ConfigFacts) -> Seq<ErrorView> {
    network_errors(c.host@, c.port, f.host_is_ip) + database_errors(
        opt_view(c.database_url),
        parent_view(f.database_parent),
    ) + static_errors(opt_view(c.static_dir), f.static_dir_exists, f.static_dir_is_dir)
}

/// All warnings found in `c` given `f`.
pub open spec fn config_warnings(c: WebConfig, f: ConfigFacts) -> Seq<WarningView> {
    network_warnings(c.host@, c.port, c.dev_mode, f.bind_failed) + database_warnings(
        opt_view(c.database_url),
        c.dev_mode,
    ) + static_warnings(
        opt_view(c.static_dir),
        f.static_dir_exists,
        f.static_dir_is_dir,
        f.static_index_exists,
    ) + dev_mode_warnings(c.dev_mode)
}

/// All recommendations for `c`.
pub open spec fn config_recommendations(c: WebConfig) -> Seq<Seq<char>> {
    dev_mode_recommendations(c.dev_mode) + general_recommendations(c.host@, c.database_url is Some)
}

/// No error in `errors` is critical.
pub open spec fn none_critical(errors: Seq<ErrorView>) -> bool {
    forall|i: int| 0 <= i < errors.len() ==> (#[trigger] errors[i]).2 != ErrorSeverity::Critical
}

// ---------------------------------------------------------------------
// Building the lists
// ---------------------------------------------------------------------

fn push_error(errors: &mut Vec<ValidationError>, field: &str, message: String, severity: ErrorSeverity)
    ensures
        errors_view(final(errors)@) == errors_view(old(errors)@).push((field@, message@, severity)),
{
    let ghost before = errors@;
    errors.push(ValidationError { field: owned(field), message, severity });
    assert(errors_view(errors@) =~= errors_view(before).push((field@, message@, severity)));
}

fn push_warning(warnings: &mut Vec<ValidationWarning>, field: &str, message: String, recommendation: &str)
    ensures
        warnings_view(final(warnings)@) == warnings_view(old(warnings)@).push(
            (field@, message@, recommendation@),
        ),
{
    let ghost before = warnings@;
    warnings.push(
        ValidationWarning { field: owned(field), message, recommendation: owned(recommendation) },
    );
    assert(warnings_view(warnings@) =~= warnings_view(before).push(
        (field@, message@, recommendation@),
    ));
}

fn push_text(texts: &mut Vec<String>, text: &str)
    ensures
        texts_view(final(texts)@) == texts_view(old(texts)@).push(text@),
{
    let ghost before = texts@;
    texts.push(owned(text));
    assert(texts_view(texts@) =~= texts_view(before).push(text@));
}

impl ConfigValidator {
    /// Validates `config` given what the machine says of it: errors,
    /// warnings and recommendations, in the order the checks run (network,
    /// database, static files, development mode, general advice).  The
    /// configuration is valid when no error is critical.
    pub fn validate_config(config: &WebConfig, facts: &ConfigFacts) -> (r: ValidationResult)
        ensures
            errors_view(r.errors@) == config_errors(*config, *facts),
            warnings_view(r.warnings@) == config_warnings(*config, *facts),
            texts_view(r.recommendations@) == config_recommendations(*config),
            r.is_valid == none_critical(config_errors(*config, *facts)),
    {
        let mut errors: Vec<ValidationError> = Vec::new();
        let mut warnings: Vec<ValidationWarning> = Vec::new();
        let mut recommendations: Vec<String> = Vec::new();
        assert(errors_view(errors@) =~= Seq::<ErrorView>::empty());
        assert(warnings_view(warnings@) =~= Seq::<WarningView>::empty());
        assert(texts_view(recommendations@) =~= Seq::<Seq<char>>::empty());
        Self::validate_network_config(config, facts, &mut errors, &mut warnings);
        Self::validate_database_config(config, facts, &mut errors, &mut warnings);
        Self::validate_static_config(config, facts, &mut errors, &mut warnings);
        Self::validate_dev_mode_config(config, &mut warnings, &mut recommendations);
        Self::generate_recommendations(config, &mut recommendations);
        let is_valid = no_critical_error(errors.as_slice());
        assert(errors_view(errors@) =~= config_errors(*config, *facts));
        assert(warnings_view(warnings@) =~= config_warnings(*config, *facts));
        assert(texts_view(recommendations@) =~= config_recommendations(*config));
        ValidationResult { is_valid, errors, warnings, recommendations }
    }

    /// Checks the host and port.
    pub fn validate_network_config(
        config: &WebConfig,
        facts: &ConfigFacts,
        errors: &mut Vec<ValidationError>,
        warnings: &mut Vec<ValidationWarning>,
    )
        ensures
            errors_view(final(errors)@) == errors_view(old(errors)@) + network_errors(
                config.host@,
                config.port,
                facts.host_is_ip,
            ),
            warnings_view(final(warnings)@) == warnings_view(old(warnings)@) + network_warnings(
                config.host@,
                config.port,
                config.dev_mode,
                facts.bind_failed,
            ),
    {
        let ghost e0 = errors_view(errors@);
        let ghost w0 = warnings_view(warnings@);
        proof {
            reveal_strlit("localhost");
        }
        if config.host.as_str().is_empty() {
            push_error(errors, "host", owned("Host cannot be empty"), ErrorSeverity::Critical);
        } else if !facts.host_is_ip && !str_eq(config.host.as_str(), "localhost") {
            push_error(
                errors,
                "host",
                concat("Invalid host format: ", config.host.as_str()),
                ErrorSeverity::High,
            );
        }
        let ghost e1 = errors_view(errors@);
        if config.port == 0 {
            push_error(errors, "port", owned("Port cannot be 0"), ErrorSeverity::Critical);
        } else if config.port < 1024 && !config.dev_mode {
            let port = decimal_string(config.port as u64);
            push_warning(
                warnings,
                "port",
                concat3("Using privileged port ", port.as_str(), " in production"),
                "Consider using a port >= 1024 for production deployment",
            );
        }
        let ghost w1 = warnings_view(warnings@);
        if facts.bind_failed {
            let port = decimal_string(config.port as u64);
            let head = concat3("Cannot bind to address ", config.host.as_str(), ":");
            push_warning(
                warnings,
                "address",
                concat(head.as_str(), port.as_str()),
                "Ensure the address is available and not in use",
            );
        }
        assert(errors_view(errors@) =~= e0 + network_errors(
            config.host@,
            config.port,
            facts.host_is_ip,
        ));
        assert(warnings_view(warnings@) =~= w0 + network_warnings(
            config.host@,
            config.port,
            config.dev_mode,
            facts.bind_failed,
        ));
    }

    /// Checks the database URL.
    pub fn validate_database_config(
        config: &WebConfig,
        facts: &ConfigFacts,
        errors: &mut Vec<ValidationError>,
        warnings: &mut Vec<ValidationWarning>,
    )
        ensures
            errors_view(final(errors)@) == errors_view(old(errors)@) + database_errors(
                opt_view(config.database_url),
                parent_view(facts.database_parent),
            ),
            warnings_view(final(warnings)@) == warnings_view(old(warnings)@) + database_warnings(
                opt_view(config.database_url),
                config.dev_mode,
            ),
    {
        let ghost e0 = errors_view(errors@);
        let ghost w0 = warnings_view(warnings@);
        proof {
            reveal_strlit(":memory:");
            reveal_strlit("sqlite:");
        }
        match &config.database_url {
            Some(url) => {
                if url.as_str().is_empty() {
                    push_error(
                        errors,
                        "database_url",
                        owned("Database URL cannot be empty if provided"),
                        ErrorSeverity::High,
                    );
                } else if str_eq(url.as_str(), ":memory:") && !config.dev_mode {
                    push_warning(
                        warnings,
                        "database_url",
                        owned("Using in-memory database in production"),
                        "Use a persistent database file for production",
                    );
                } else if !str_has_prefix(url.as_str(), "sqlite:") && !str_eq(url.as_str(), ":memory:") {
                    match &facts.database_parent {
                        Some((parent, exists)) => {
                            if !*exists {
                                push_error(
                                    errors,
                                    "database_url",
                                    concat("Database directory does not exist: ", parent.as_str()),
                                    ErrorSeverity::High,
                                );
                            }
                        },
                        None => {},
                    }
                }
            },
            None => {
                if !config.dev_mode {
                    push_warning(
                        warnings,
                        "database_url",
                        owned("No database configured for production"),
                        "Configure a database for session persistence",
                    );
                }
            },
        }
        assert(errors_view(errors@) =~= e0 + database_errors(
            opt_view(config.database_url),
            parent_view(facts.database_parent),
        ));
        assert(warnings_view(warnings@) =~= w0 + database_warnings(
            opt_view(config.database_url),
            config.dev_mode,
        ));
    }

    /// Checks the static directory.
    pub fn validate_static_config(
        config: &WebConfig,
        facts: &ConfigFacts,
        errors: &mut Vec<ValidationError>,
        warnings: &mut Vec<ValidationWarning>,
    )
        ensures
            errors_view(final(errors)@) == errors_view(old(errors)@) + static_errors(
                opt_view(config.static_dir),
                facts.static_dir_exists,
                facts.static_dir_is_dir,
            ),
            warnings_view(final(warnings)@) == warnings_view(old(warnings)@) + static_warnings(
                opt_view(config.static_dir),
                facts.static_dir_exists,
                facts.static_dir_is_dir,
                facts.static_index_exists,
            ),
    {
        let ghost e0 = errors_view(errors@);
        let ghost w0 = warnings_view(warnings@);
        match &config.static_dir {
            Some(dir) => {
                if dir.as_str().is_empty() {
                    push_error(
                        errors,
                        "static_dir",
                        owned("Static directory cannot be empty if provided"),
                        ErrorSeverity::Medium,
                    );
                } else if !facts.static_dir_exists {
                    push_error(
                        errors,
                        "static_dir",
                        concat("Static directory does not exist: ", dir.as_str()),
                        ErrorSeverity::Medium,
                    );
                } else if !facts.static_dir_is_dir {
                    push_error(
                        errors,
                        "static_dir",
                        concat("Static path is not a directory: ", dir.as_str()),
                        ErrorSeverity::Medium,
                    );
                } else if !facts.static_index_exists {
                    push_warning(
                        warnings,
                        "static_dir",
                        owned("No index.html found in static directory"),
                        "Ensure index.html exists for proper SPA fallback",
                    );
                }
            },
            None => {},
        }
        assert(errors_view(errors@) =~= e0 + static_errors(
            opt_view(config.static_dir),
            facts.static_dir_exists,
            facts.static_dir_is_dir,
        ));
        assert(warnings_view(warnings@) =~= w0 + static_warnings(
            opt_view(config.static_dir),
            facts.static_dir_exists,
            facts.static_dir_is_dir,
            facts.static_index_exists,
        ));
    }

    /// Warns about development mode.
    pub fn validate_dev_mode_config(
        config: &WebConfig,
        warnings: &mut Vec<ValidationWarning>,
        recommendations: &mut Vec<String>,
    )
        ensures
            warnings_view(final(warnings)@) == warnings_view(old(warnings)@) + dev_mode_warnings(
                config.dev_mode,
            ),
            texts_view(final(recommendations)@) == texts_view(old(recommendations)@)
                + dev_mode_recommendations(config.dev_mode),
    {
        let ghost w0 = warnings_view(warnings@);
        let ghost r0 = texts_view(recommendations@);
        if config.dev_mode {
            push_warning(
                warnings,
                "dev_mode",
                owned("Development mode is enabled"),
                "Disable development mode for production deployment",
            );
            push_text(
                recommendations,
                "Development mode enables additional logging and debugging features",
            );
            push_text(recommendations, "Ensure dev_mode is set to false for production");
        }
        assert(warnings_view(warnings@) =~= w0 + dev_mode_warnings(config.dev_mode));
        assert(texts_view(recommendations@) =~= r0 + dev_mode_recommendations(config.dev_mode));
    }

    /// General advice.
    pub fn generate_recommendations(config: &WebConfig, recommendations: &mut Vec<String>)
        ensures
            texts_view(final(recommendations)@) == texts_view(old(recommendations)@)
                + general_recommendations(config.host@, config.database_url is Some),
    {
        let ghost r0 = texts_view(recommendations@);
        if str_eq(config.host.as_str(), "0.0.0.0") {
            push_text(
                recommendations,
                "Consider using a reverse proxy (nginx, Apache) when binding to 0.0.0.0",
            );
        }
        if config.database_url.is_none() {
            push_text(
                recommendations,
                "Configure a database for better session management and persistence",
            );
        }
        push_text(
            recommendations,
            "Consider setting up monitoring and logging for production deployment",
        );
        push_text(recommendations, "Configure proper backup strategies for your database");
        assert(texts_view(recommendations@) =~= r0 + general_recommendations(
            config.host@,
            config.database_url is Some,
        ));
    }
}

/// Whether no error in `errors` is critical.
fn no_critical_error(errors: &[ValidationError]) -> (b: bool)
    ensures
        b == none_critical(errors_view(errors@)),
{
    let mut i: usize = 0;
    while i < errors.len()
        invariant
            i <= errors@.len(),
            forall|j: int| 0 <= j < i ==> errors@[j].severity != ErrorSeverity::Critical,
        decreases errors@.len() - i,
    {
        if errors[i].severity == ErrorSeverity::Critical {
            assert(errors_view(errors@)[i as int].2 == ErrorSeverity::Critical);
            return false;
        }
        i = i + 1;
    }
    assert forall|j: int| 0 <= j < errors_view(errors@).len() implies (#[trigger] errors_view(
        errors@,
    )[j]).2 != ErrorSeverity::Critical by {
        assert(errors@[j].severity != ErrorSeverity::Critical);
    }
    true
}

/// Validates `config` given `facts`, and refuses a configuration with a
/// critical error.
pub fn validate_config(config: &WebConfig, facts: &ConfigFacts) -> (r: WebResult<ValidationResult>)
    ensures
        match r {
            Ok(v) => {
                &&& none_critical(config_errors(*config, *facts))
                &&& v.is_valid
                &&& errors_view(v.errors@) == config_errors(*config, *facts)
                &&& warnings_view(v.warnings@) == config_warnings(*config, *facts)
                &&& texts_view(v.recommendations@) == config_recommendations(*config)
            },
            Err(e) => {
                &&& !none_critical(config_errors(*config, *facts))
                &&& e matches WebError::Config(m) && m@ == "Configuration validation failed"@
            },
        },
{
    let result = ConfigValidator::validate_config(config, facts);
    if !result.is_valid {
        return Err(WebError::Config(owned("Configuration validation failed")));
    }
    Ok(result)
}

// ---------------------------------------------------------------------
// The environment
// ---------------------------------------------------------------------

/// The values of the environment variables the server reads (`None`: not
/// set).
#[derive(Debug)]
pub struct EnvironmentValues {
    pub wikify_host: Option<String>,
    pub wikify_port: Option<String>,
    pub wikify_database_url: Option<String>,
    pub wikify_static_dir: Option<String>,
    pub wikify_dev_mode: Option<String>,
    pub rust_log: Option<String>,
}

/// The warning about a variable that is set but empty.
pub open spec fn empty_variable_warning(name: Seq<char>, value: Option<Seq<char>>) -> Seq<WarningView> {
    if value matches Some(v) && v.len() == 0 {
        seq![
            (
                name,
                "Environment variable "@ + name + " is empty"@,
                "Set a proper value for "@ + name,
            ),
        ]
    } else {
        Seq::empty()
    }
}

/// Whether `v` names one of the log levels.
pub open spec fn names_log_level(v: Seq<char>) -> bool {
    contains_seq(v, "error"@) || contains_seq(v, "warn"@) || contains_seq(v, "info"@)
        || contains_seq(v, "debug"@) || contains_seq(v, "trace"@)
}

/// The warnings about the environment.
pub open spec fn environment_warnings(e: EnvironmentValues) -> Seq<WarningView> {
    empty_variable_warning("WIKIFY_HOST"@, opt_view(e.wikify_host)) + empty_variable_warning(
        "WIKIFY_PORT"@,
        opt_view(e.wikify_port),
    ) + empty_variable_warning("WIKIFY_DATABASE_URL"@, opt_view(e.wikify_database_url))
        + empty_variable_warning("WIKIFY_STATIC_DIR"@, opt_view(e.wikify_static_dir))
        + empty_variable_warning("WIKIFY_DEV_MODE"@, opt_view(e.wikify_dev_mode))
        + empty_variable_warning("RUST_LOG"@, opt_view(e.rust_log)) + (if e.rust_log matches Some(
        v,
    ) && !names_log_level(v@) {
        seq![
            (
                "RUST_LOG"@,
                "RUST_LOG may not contain valid log levels"@,
                "Use format like 'info' or 'wikify_web=debug'"@,
            ),
        ]
    } else {
        Seq::empty()
    })
}

/// The recommendations about the environment.
pub open spec fn environment_recommendations(e: EnvironmentValues) -> Seq<Seq<char>> {
    if e.rust_log is None {
        seq!["Set RUST_LOG environment variable for proper logging"@]
    } else {
        Seq::empty()
    }
}

fn check_variable(warnings: &mut Vec<ValidationWarning>, name: &str, value: &Option<String>)
    ensures
        warnings_view(final(warnings)@) == warnings_view(old(warnings)@) + empty_variable_warning(
            name@,
            opt_view(*value),
        ),
{
    let ghost w0 = warnings_view(warnings@);
    match value {
        Some(v) => {
            if v.as_str().is_empty() {
                let message = concat3("Environment variable ", name, " is empty");
                let recommendation = concat("Set a proper value for ", name);
                push_warning(warnings, name, message, recommendation.as_str());
            }
        },
        None => {},
    }
    assert(warnings_view(warnings@) =~= w0 + empty_variable_warning(name@, opt_view(*value)));
}

impl ConfigValidator {
    /// Validates the environment: a warning for each variable that is set
    /// but empty, a warning when `RUST_LOG` names no log level, and a
    /// recommendation to set `RUST_LOG` when it is not set.  No variable is
    /// required, so the environment is always valid.
    pub fn validate_environment(env: &EnvironmentValues) -> (r: ValidationResult)
        ensures
            r.is_valid,
            r.errors@.len() == 0,
            warnings_view(r.warnings@) == environment_warnings(*env),
            texts_view(r.recommendations@) == environment_recommendations(*env),
    {
        let errors: Vec<ValidationError> = Vec::new();
        let mut warnings: Vec<ValidationWarning> = Vec::new();
        let mut recommendations: Vec<String> = Vec::new();
        assert(warnings_view(warnings@) =~= Seq::<WarningView>::empty());
        assert(texts_view(recommendations@) =~= Seq::<Seq<char>>::empty());
        check_variable(&mut warnings, "WIKIFY_HOST", &env.wikify_host);
        check_variable(&mut warnings, "WIKIFY_PORT", &env.wikify_port);
        check_variable(&mut warnings, "WIKIFY_DATABASE_URL", &env.wikify_database_url);
        check_variable(&mut warnings, "WIKIFY_STATIC_DIR", &env.wikify_static_dir);
        check_variable(&mut warnings, "WIKIFY_DEV_MODE", &env.wikify_dev_mode);
        check_variable(&mut warnings, "RUST_LOG", &env.rust_log);
        let ghost w6 = warnings_view(warnings@);
        match &env.rust_log {
            Some(v) => {
                let level = str_contains(v.as_str(), "error") || str_contains(v.as_str(), "warn")
                    || str_contains(v.as_str(), "info") || str_contains(v.as_str(), "debug")
                    || str_contains(v.as_str(), "trace");
                if !level {
                    push_warning(
                        &mut warnings,
                        "RUST_LOG",
                        owned("RUST_LOG may not contain valid log levels"),
                        "Use format like 'info' or 'wikify_web=debug'",
                    );
                }
            },
            None => {
                push_text(
                    &mut recommendations,
                    "Set RUST_LOG environment variable for proper logging",
                );
            },
        }
        assert(warnings_view(warnings@) =~= environment_warnings(*env));
        assert(texts_view(recommendations@) =~= environment_recommendations(*env));
        ValidationResult { is_valid: true, errors, warnings, recommendations }
    }
}

// ---------------------------------------------------------------------
// Reporting
// ---------------------------------------------------------------------

/// The icon shown before an error of severity `s`.
pub open spec fn severity_icon(s: ErrorSeverity) -> Seq<char> {
    match s {
        ErrorSeverity::Critical => "🚨"@,
        ErrorSeverity::High => "❌"@,
        ErrorSeverity::Medium => "⚠️"@,
        ErrorSeverity::Low => "ℹ️"@,
    }
}

impl ErrorSeverity {
    /// The icon shown before an error of this severity.
    pub fn icon(&self) -> (i: &'static str)
        ensures
            i@ == severity_icon(*self),
    {
        match self {
            ErrorSeverity::Critical => "🚨",
            ErrorSeverity::High => "❌",
            ErrorSeverity::Medium => "⚠️",
            ErrorSeverity::Low => "ℹ️",
        }
    }
}

impl ConfigValidator {
    /// The headline of a report: whether validation passed.
    pub fn status_line(result: &ValidationResult) -> (l: &'static str)
        ensures
            l@ == if result.is_valid {
                "✅ Configuration validation passed"@
            } else {
                "❌ Configuration validation failed"@
            },
    {
        if result.is_valid {
            "✅ Configuration validation passed"
        } else {
            "❌ Configuration validation failed"
        }
    }

    /// The report line of an error: icon, field and message.
    pub fn error_line(error: &ValidationError) -> (l: String)
        ensures
            l@ == severity_icon(error.severity) + " "@ + error.field@ + ": "@ + error.message@,
    {
        let head = concat3(error.severity.icon(), " ", error.field.as_str());
        concat3(head.as_str(), ": ", error.message.as_str())
    }

    /// The report line of a warning: field, message and recommendation.
    pub fn warning_line(warning: &ValidationWarning) -> (l: String)
        ensures
            l@ == "⚠️  "@ + warning.field@ + ": "@ + warning.message@ + " (Recommendation: "@
                + warning.recommendation@ + ")"@,
    {
        let head = concat3("⚠️  ", warning.field.as_str(), ": ");
        let middle = concat3(head.as_str(), warning.message.as_str(), " (Recommendation: ");
        concat3(middle.as_str(), warning.recommendation.as_str(), ")")
    }

    /// The report line of a recommendation.
    pub fn recommendation_line(recommendation: &str) -> (l: String)
        ensures
            l@ == "   • "@ + recommendation@,
    {
        concat("   • ", recommendation)
    }
}

/// A database URL that starts with `sqlite:` gives no database error,
/// whatever the facts say of its parent directory: the configuration's
/// errors are those of its network and static settings alone.
pub proof fn law_sqlite_url_never_checked_for_directory(c: WebConfig, f: ConfigFacts)
    requires
        c.database_url matches Some(u) && has_prefix(u@, "sqlite:"@),
    ensures
        config_errors(c, f) == network_errors(c.host@, c.port, f.host_is_ip) + static_errors(
            opt_view(c.static_dir),
            f.static_dir_exists,
            f.static_dir_is_dir,
        ),
{
    reveal_strlit("sqlite:");
    let u = c.database_url.unwrap()@;
    assert(u.len() >= 7);
    assert(database_errors(opt_view(c.database_url), parent_view(f.database_parent)) =~= Seq::<
        ErrorView,
    >::empty());
    assert(config_errors(c, f) =~= network_errors(c.host@, c.port, f.host_is_ip) + static_errors(
        opt_view(c.static_dir),
        f.static_dir_exists,
        f.static_dir_is_dir,
    ));
}

} // verus!
