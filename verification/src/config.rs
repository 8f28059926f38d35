//! Web server configuration: defaults, the listening address, and the
//! database location with `~/` expanded to the user's `.wikify` directory.

use vstd::prelude::*;
use crate::strings::{chars_of, concat, concat3, decimal, decimal_string, has_prefix, owned, str_strip_prefix};

verus! {

broadcast use vstd::string::group_string_axioms;

/// Web server configuration.
#[derive(Clone, Debug)]
pub struct WebConfig {
    pub host: String,
    pub port: u16,
    pub dev_mode: bool,
    pub static_dir: Option<String>,
    pub database_url: Option<String>,
    pub permission_mode: Option<String>,
}

/// The default configuration: listening on 127.0.0.1:8080, not in
/// development mode, no static directory, the SQLite database
/// `./data/wikify.db`, and restricted permission mode, in which protected
/// routes ask for credentials.
pub open spec fn is_default_config(c: WebConfig) -> bool {
    &&& c.host@ == "127.0.0.1"@
    &&& c.port == 8080
    &&& !c.dev_mode
    &&& c.static_dir is None
    &&& c.database_url matches Some(u) && u@ == "sqlite:./data/wikify.db"@
    &&& c.permission_mode matches Some(m) && m@ == "restricted"@
}

impl Default for WebConfig {
    /// The default configuration (see `is_default_config`).
    fn default() -> (c: Self)
        ensures
            is_default_config(c),
    {
        WebConfig {
            host: owned("127.0.0.1"),
            port: 8080,
            dev_mode: false,
            static_dir: None,
            database_url: Some(owned("sqlite:./data/wikify.db")),
            permission_mode: Some(owned("restricted")),
        }
    }
}

/// The database URL used when none is configured.
pub open spec fn fallback_database_url() -> Seq<char> {
    "sqlite:~/.wikify/wikify.db"@
}

/// The configured database URL, or the fallback.
pub open spec fn configured_database_url(database_url: Option<String>) -> Seq<char> {
    match database_url {
        Some(u) => u@,
        None => fallback_database_url(),
    }
}

/// `rel` appended to the path `base` as `Path::join` does on Unix: an
/// absolute `rel` replaces `base`, and a separator is put between them
/// unless `base` is empty or already ends with one.
pub open spec fn join_path(base: Seq<char>, rel: Seq<char>) -> Seq<char> {
    if rel.len() > 0 && rel[0] == '/' {
        rel
    } else if base.len() == 0 || base.last() == '/' {
        base + rel
    } else {
        base + "/"@ + rel
    }
}

/// The database URL with a leading `sqlite:~/` resolved against the home
/// directory `home` (into its `.wikify` directory); other URLs, and all
/// URLs when there is no home directory, are kept as they are.
pub open spec fn expanded_database_url(url: Seq<char>, home: Option<Seq<char>>) -> Seq<char> {
    if has_prefix(url, "sqlite:~/"@) && home is Some {
        "sqlite:"@ + join_path(join_path(home.unwrap(), ".wikify"@), url.skip(9))
    } else {
        url
    }
}

/// `rel` appended to the path `base` (see `join_path`).
pub fn join_path_text(base: &str, rel: &str) -> (r: String)
    ensures
        r@ == join_path(base@, rel@),
{
    let rv = chars_of(rel);
    if rv.len() > 0 && rv[0] == '/' {
        return owned(rel);
    }
    let bv = chars_of(base);
    let needs_separator = bv.len() > 0 && bv[bv.len() - 1] != '/';
    if needs_separator {
        concat3(base, "/", rel)
    } else {
        concat(base, rel)
    }
}

/// `dirs::home_dir()`, rendered as text.  The answer depends on the
/// environment the process runs in; nothing is stated of it.
#[verifier::external_body]
fn home_dir() -> (r: Option<String>) {
    match dirs::home_dir() {
        Some(p) => Some(p.display().to_string()),
        None => None,
    }
}

impl WebConfig {
    /// The listening address, `host:port`.
    pub fn address(&self) -> (a: String)
        ensures
            a@ == self.host@ + ":"@ + decimal(self.port as nat),
    {
        let port = decimal_string(self.port as u64);
        concat3(self.host.as_str(), ":", port.as_str())
    }

    /// The database URL, with `sqlite:~/` resolved against `home`.
    pub fn database_url_in(&self, home: Option<&str>) -> (u: String)
        ensures
            u@ == expanded_database_url(
                configured_database_url(self.database_url),
                match home {
                    Some(h) => Some(h@),
                    None => None,
                },
            ),
    {
        let url = match &self.database_url {
            Some(u) => u.clone(),
            None => owned("sqlite:~/.wikify/wikify.db"),
        };
        proof {
            reveal_strlit("sqlite:~/");
        }
        match home {
            Some(h) => match str_strip_prefix(url.as_str(), "sqlite:~/") {
                Some(path) => {
                    let dir = join_path_text(h, ".wikify");
                    let full = join_path_text(dir.as_str(), path.as_str());
                    concat("sqlite:", full.as_str())
                },
                None => url,
            },
            None => url,
        }
    }

    /// The database URL, with `sqlite:~/` resolved against the user's home
    /// directory when there is one.  (Creating the directory is left to
    /// the caller.)
    pub fn database_url(&self) -> (u: String)
        ensures
            u@ == configured_database_url(self.database_url)
                || exists|h: Seq<char>| u@ == expanded_database_url(
                    configured_database_url(self.database_url),
                    Some(h),
                ),
    {
        let home = home_dir();
        match home {
            Some(h) => self.database_url_in(Some(h.as_str())),
            None => self.database_url_in(None),
        }
    }
}

/// How the application layer is set up.
#[derive(Clone, Copy, Debug, PartialEq, Eq, Structural)]
pub enum ApplicationMode {
    /// Everyone may do everything.
    Open,
    /// Requests act as the user they name, or anonymously.
    Restricted,
}

/// The application mode a permission mode selects: `restricted` selects
/// the restricted mode; `open`, any other mode and none select the open
/// mode.
pub fn application_mode(permission_mode: &Option<String>) -> (m: ApplicationMode)
    ensures
        m == if permission_mode matches Some(p) && p@ == "restricted"@ {
            ApplicationMode::Restricted
        } else {
            ApplicationMode::Open
        },
{
    match permission_mode {
        Some(p) => if crate::strings::str_eq(p.as_str(), "restricted") {
            ApplicationMode::Restricted
        } else {
            ApplicationMode::Open
        },
        None => ApplicationMode::Open,
    }
}

} // verus!
