//! Building the server's configuration.

use vstd::prelude::*;
use crate::config::{is_default_config, WebConfig};
use crate::strings::owned;

verus! {

broadcast use vstd::string::group_string_axioms;

/// Builder for the server's configuration.
#[derive(Debug)]
pub struct WikifyServerBuilder {
    pub config: WebConfig,
}

/// `b` differs from `a` at most in the host.
pub open spec fn same_but_host(a: WebConfig, b: WebConfig) -> bool {
    &&& b.port == a.port
    &&& b.dev_mode == a.dev_mode
    &&& b.static_dir == a.static_dir
    &&& b.database_url == a.database_url
    &&& b.permission_mode == a.permission_mode
}

impl WikifyServerBuilder {
    /// A builder holding the default configuration.
    pub fn new() -> (b: Self)
        ensures
            is_default_config(b.config),
    {
        WikifyServerBuilder { config: WebConfig::default() }
    }

    /// Sets the host.
    pub fn host(self, host: &str) -> (b: Self)
        ensures
            b.config.host@ == host@,
            same_but_host(self.config, b.config),
    {
        let mut config = self.config;
        config.host = owned(host);
        WikifyServerBuilder { config }
    }

    /// Sets the port.
    pub fn port(self, port: u16) -> (b: Self)
        ensures
            b.config.port == port,
            b.config.host == self.config.host,
            b.config.dev_mode == self.config.dev_mode,
            b.config.static_dir == self.config.static_dir,
            b.config.database_url == self.config.database_url,
            b.config.permission_mode == self.config.permission_mode,
    {
        let mut config = self.config;
        config.port = port;
        WikifyServerBuilder { config }
    }

    /// Turns development mode on or off.
    pub fn dev_mode(self, dev_mode: bool) -> (b: Self)
        ensures
            b.config.dev_mode == dev_mode,
            b.config.host == self.config.host,
            b.config.port == self.config.port,
            b.config.static_dir == self.config.static_dir,
            b.config.database_url == self.config.database_url,
            b.config.permission_mode == self.config.permission_mode,
    {
        let mut config = self.config;
        config.dev_mode = dev_mode;
        WikifyServerBuilder { config }
    }

    /// Sets the static files directory.
    pub fn static_dir(self, static_dir: &str) -> (b: Self)
        ensures
            b.config.static_dir matches Some(d) && d@ == static_dir@,
            b.config.host == self.config.host,
            b.config.port == self.config.port,
            b.config.dev_mode == self.config.dev_mode,
            b.config.database_url == self.config.database_url,
            b.config.permission_mode == self.config.permission_mode,
    {
        let mut config = self.config;
        config.static_dir = Some(owned(static_dir));
        WikifyServerBuilder { config }
    }

    /// Sets the database URL.
    pub fn database_url(self, database_url: &str) -> (b: Self)
        ensures
            b.config.database_url matches Some(u) && u@ == database_url@,
            b.config.host == self.config.host,
            b.config.port == self.config.port,
            b.config.dev_mode == self.config.dev_mode,
            b.config.static_dir == self.config.static_dir,
            b.config.permission_mode == self.config.permission_mode,
    {
        let mut config = self.config;
        config.database_url = Some(owned(database_url));
        WikifyServerBuilder { config }
    }
}

impl Default for WikifyServerBuilder {
    /// The same as `new`.
    fn default() -> (b: Self)
        ensures
            is_default_config(b.config),
    {
        Self::new()
    }
}

} // verus!
