//! Process-wide configuration.
//!
//! One immutable value, constructed once at startup from the environment
//! and shared read-only across concurrent requests: the listen address, the
//! chain-RPC project identifier, the signing key and chain id, and the
//! indexing API's base URL and key.

use vstd::prelude::*;
use vstd::string::*;

verus! {

/// The startup configuration; never mutated after construction.
#[derive(Debug, Clone, PartialEq)]
pub struct Config {
    pub listen_url: String,
    pub project_id: String,
    pub signer_private_key: String,
    pub signer_address: String,
    pub chain_id: u64,
    pub moralis_base_url: String,
    pub moralis_api_key: String,
    pub testing_address: String,
}

/// The chain-RPC endpoint URL: the fixed network template with the
/// configured project identifier appended.
pub fn infura_url(config: &Config) -> (r: String)
    ensures
        r@ == "https://ropsten.infura.io/v3/"@ + config.project_id@,
{
    String::from_str("https://ropsten.infura.io/v3/").concat(config.project_id.as_str())
}

} // verus!
