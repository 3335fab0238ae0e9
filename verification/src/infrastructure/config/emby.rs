//! The media server's part of the configuration.

use vstd::prelude::*;

verus! {

/// How to reach the media server.
#[derive(Debug, Clone, PartialEq, Eq)]
pub struct EmbyConfig {
    pub base_url: String,
    pub api_key: String,
}

impl Default for EmbyConfig {
    /// A server on this machine, and no key.
    fn default() -> (config: Self)
        ensures
            config.base_url@ == "http://127.0.0.1:8096"@,
            config.api_key@ == ""@,
    {
        Self { base_url: "http://127.0.0.1:8096".to_owned(), api_key: "".to_owned() }
    }
}

} // verus!
