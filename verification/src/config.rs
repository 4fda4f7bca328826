//! Configuration of the client that talks to the verifier.

use vstd::prelude::*;
use vstd::string::StringExecFns;

verus! {

/// Where the verifier is and how long to wait for it.
#[derive(Debug)]
pub struct MlClientConfig {
    /// Root of the verifier's address, without a slash at the end.
    pub base_url: String,
    /// Most time one request may take, in milliseconds.
    pub timeout_ms: u64,
}

impl Clone for MlClientConfig {
    fn clone(&self) -> (r: MlClientConfig)
        ensures
            r.base_url@ == self.base_url@,
            r.timeout_ms == self.timeout_ms,
    {
        MlClientConfig { base_url: self.base_url.clone(), timeout_ms: self.timeout_ms }
    }
}

impl Default for MlClientConfig {
    fn default() -> (cfg: MlClientConfig)
        ensures
            cfg.base_url@ == "http://127.0.0.1:8080"@,
            cfg.timeout_ms == 2000,
    {
        MlClientConfig { base_url: String::from_str("http://127.0.0.1:8080"), timeout_ms: 2000 }
    }
}

} // verus!
