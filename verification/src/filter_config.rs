//! Settings of the web filter: proxy listener, filtering switches and lists,
//! and the connection to the family daemon.
use vstd::prelude::*;
use crate::strset::string_views;

verus! {

/// Where the proxy listens and how it talks to upstream servers.
#[derive(Debug, Clone)]
pub struct ProxyConfig {
    pub bind_address: String,
    pub port: u16,
    pub upstream_timeout_seconds: u64,
    pub max_body_size_mb: usize,
}

/// The filtering switches and lists.
#[derive(Debug, Clone)]
pub struct FilteringConfig {
    pub enabled: bool,
    pub safe_search_enforcement: bool,
    pub block_categories: Vec<String>,
    pub allow_categories: Vec<String>,
    pub blocked_domains: Vec<String>,
    pub allowed_domains: Vec<String>,
    pub custom_rules_enabled: bool,
}

/// How the filter reaches the family daemon.
#[derive(Debug, Clone)]
pub struct DaemonConfig {
    pub dbus_interface: String,
    pub check_permissions: bool,
    pub log_activity: bool,
}

/// The whole configuration of the web filter.
#[derive(Debug, Clone)]
pub struct FilterConfig {
    pub proxy: ProxyConfig,
    pub filtering: FilteringConfig,
    pub daemon: DaemonConfig,
}

/// A configuration that `validate` refuses.
#[derive(Debug, Clone, Copy, PartialEq, Eq, Structural)]
pub enum ConfigError {
    ZeroPort,
    EmptyBindAddress,
}

impl ConfigError {
    /// The message that describes the error.
    pub fn message(&self) -> (s: String)
        ensures
            s@ == (match self {
                ConfigError::ZeroPort => "Proxy port cannot be 0"@,
                ConfigError::EmptyBindAddress => "Bind address cannot be empty"@,
            }),
    {
        match self {
            ConfigError::ZeroPort => String::from_str("Proxy port cannot be 0"),
            ConfigError::EmptyBindAddress => String::from_str("Bind address cannot be empty"),
        }
    }
}

/// Whether `c` is the default configuration.
pub open spec fn is_default_filter_config(c: FilterConfig) -> bool {
    &&& c.proxy.bind_address@ == "127.0.0.1"@
    &&& c.proxy.port == 8080
    &&& c.proxy.upstream_timeout_seconds == 30
    &&& c.proxy.max_body_size_mb == 10
    &&& c.filtering.enabled
    &&& c.filtering.safe_search_enforcement
    &&& string_views(c.filtering.block_categories@) == seq!["adult"@, "violence"@, "gambling"@, "drugs"@]
    &&& string_views(c.filtering.allow_categories@) == seq!["educational"@, "children"@, "reference"@]
    &&& c.filtering.blocked_domains@.len() == 0
    &&& c.filtering.allowed_domains@.len() == 0
    &&& c.filtering.custom_rules_enabled
    &&& c.daemon.dbus_interface@ == "org.dots.FamilyDaemon"@
    &&& c.daemon.check_permissions
    &&& c.daemon.log_activity
}

/// A vector of owned strings made from string slices.
pub fn strings_from(items: &[&str]) -> (r: Vec<String>)
    ensures
        string_views(r@) == items@.map_values(|s: &str| s@),
{
    let mut r: Vec<String> = Vec::new();
    let n = items.len();
    for i in 0..n
        invariant
            n == items@.len(),
            string_views(r@) == items@.take(i as int).map_values(|s: &str| s@),
    {
        let ghost before = r@;
        r.push(String::from_str(items[i]));
        proof {
            assert(string_views(r@) =~= string_views(before).push(items@[i as int]@));
            assert(items@.take(i + 1) =~= items@.take(i as int).push(items@[i as int]));
            assert(string_views(r@) =~= items@.take(i + 1).map_values(|s: &str| s@));
        }
    }
    proof {
        assert(items@.take(n as int) =~= items@);
    }
    r
}

impl FilterConfig {
    /// The default configuration: proxy on 127.0.0.1:8080, filtering and
    /// safe search on, adult, violence, gambling and drugs blocked,
    /// educational, children and reference allowed, daemon checks and
    /// activity logging on.
    pub fn default_config() -> (c: FilterConfig)
        ensures
            is_default_filter_config(c),
    {
        let blocks = strings_from(&["adult", "violence", "gambling", "drugs"]);
        let allows = strings_from(&["educational", "children", "reference"]);
        proof {
            reveal_strlit("adult");
            reveal_strlit("violence");
            reveal_strlit("gambling");
            reveal_strlit("drugs");
            reveal_strlit("educational");
            reveal_strlit("children");
            reveal_strlit("reference");
            assert(string_views(blocks@) =~= seq!["adult"@, "violence"@, "gambling"@, "drugs"@]);
            assert(string_views(allows@) =~= seq!["educational"@, "children"@, "reference"@]);
        }
        FilterConfig {
            proxy: ProxyConfig {
                bind_address: String::from_str("127.0.0.1"),
                port: 8080,
                upstream_timeout_seconds: 30,
                max_body_size_mb: 10,
            },
            filtering: FilteringConfig {
                enabled: true,
                safe_search_enforcement: true,
                block_categories: blocks,
                allow_categories: allows,
                blocked_domains: Vec::new(),
                allowed_domains: Vec::new(),
                custom_rules_enabled: true,
            },
            daemon: DaemonConfig {
                dbus_interface: String::from_str("org.dots.FamilyDaemon"),
                check_permissions: true,
                log_activity: true,
            },
        }
    }

    /// Refuses a zero port, then an empty bind address.
    pub fn validate(&self) -> (r: Result<(), ConfigError>)
        ensures
            self.proxy.port == 0 ==> r == Err::<(), ConfigError>(ConfigError::ZeroPort),
            self.proxy.port != 0 && self.proxy.bind_address@.len() == 0 ==> r == Err::<(), ConfigError>(
                ConfigError::EmptyBindAddress,
            ),
            self.proxy.port != 0 && self.proxy.bind_address@.len() != 0 ==> r is Ok,
    {
        if self.proxy.port == 0 {
            return Err(ConfigError::ZeroPort);
        }
        if self.proxy.bind_address.as_str().unicode_len() == 0 {
            return Err(ConfigError::EmptyBindAddress);
        }
        Ok(())
    }
}

impl Default for FilterConfig {
    fn default() -> (c: Self)
        ensures
            is_default_filter_config(c),
    {
        FilterConfig::default_config()
    }
}

} // verus!
