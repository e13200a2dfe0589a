//! Implements configuration for the API.

use vstd::prelude::*;
use vstd::std_specs::convert::FromSpecImpl;

verus! {

/// Encodes the information in an API config file.
#[derive(Debug, Clone, PartialEq, Eq)]
pub struct ApiConfigFile {
    /// List of address:port items to bind to.
    /// Note that IPv4 and IPv6 are to be specified separately.
    pub binds: Vec<String>,
}

/// The decoded, properly-parsed version of the ApiConfigFile struct.
#[derive(Debug, Clone, PartialEq, Eq)]
pub struct ApiConfig {
    /// List of address:port items to bind to.
    /// Note that IPv4 and IPv6 are to be specified separately.
    pub binds: Vec<String>,
}

/// An error that can arise while loading the API configuration.
#[derive(Debug)]
pub enum ApiConfigParseError {
    /// Parse error from the config crate.
    ConfigError(config::ConfigError),
    /// Parse error from our conversion. The conversion cannot fail yet, but
    /// it might, in the future.
    ParseError(String),
}

impl From<config::ConfigError> for ApiConfigParseError {
    fn from(cfgerr: config::ConfigError) -> (e: Self) {
        Self::ConfigError(cfgerr)
    }
}

impl FromSpecImpl<config::ConfigError> for ApiConfigParseError {
    open spec fn obeys_from_spec() -> bool {
        true
    }

    open spec fn from_spec(cfgerr: config::ConfigError) -> Self {
        ApiConfigParseError::ConfigError(cfgerr)
    }
}

/// The addresses that are bound to where the file names none: every IPv4
/// and every IPv6 address, on port 9869.
pub open spec fn default_binds() -> Seq<Seq<char>> {
    seq!["0.0.0.0:9869"@, "[::]:9869"@]
}

impl Default for ApiConfigFile {
    /// Default binds all:9869.
    fn default() -> (file: Self)
        ensures
            crate::text::texts(file.binds@) == default_binds(),
    {
        let mut binds: Vec<String> = Vec::new();
        binds.push("0.0.0.0:9869".to_owned());
        binds.push("[::]:9869".to_owned());
        assert(crate::text::texts(binds@) =~= default_binds());
        Self { binds: binds }
    }
}

impl ApiConfig {
    /// Fallible parsing. No errors now... but who knows?
    pub fn try_from(pre: ApiConfigFile) -> (r: Result<Self, ApiConfigParseError>)
        ensures
            r matches Ok(cfg) && cfg.binds == pre.binds,
    {
        Ok(Self { binds: pre.binds })
    }
}

impl Default for ApiConfig {
    /// Default binds all:9869.
    fn default() -> (cfg: Self)
        ensures
            crate::text::texts(cfg.binds@) == default_binds(),
    {
        let file = ApiConfigFile::default();
        Self { binds: file.binds }
    }
}

} // verus!
