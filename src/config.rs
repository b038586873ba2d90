//! Deployment settings of the gateway.
use vstd::prelude::*;
use vstd::string::StringExecFns;
use crate::translator::Strategy;

verus! {

/// Backend base URL used when none is configured.
pub const DEFAULT_HOST: &'static str = "http://ollama:11434";

/// Model name used when none is configured.
pub const DEFAULT_MODEL: &'static str = "llama3.2";

/// How many requests may contact the backend at once.
pub const GATE_CAPACITY: usize = 1;

/// Where the backend is, which model it serves, and which wire format it speaks.
#[derive(Clone, Debug)]
pub struct GatewayConfig {
    pub host: String,
    pub model: String,
    pub strategy: Strategy,
}

/// A configured value, or the default when it is not set.
pub open spec fn setting_or(v: Option<String>, default: Seq<char>) -> Seq<char> {
    match v {
        Some(s) => s@,
        None => default,
    }
}

impl GatewayConfig {
    /// Settings from the configured host and model, each falling back to its default.
    pub fn from_settings(host: Option<String>, model: Option<String>, strategy: Strategy) -> (r: GatewayConfig)
        ensures
            r.host@ == setting_or(host, DEFAULT_HOST@),
            r.model@ == setting_or(model, DEFAULT_MODEL@),
            r.strategy == strategy,
    {
        let host = match host {
            Some(h) => h,
            None => String::from_str(DEFAULT_HOST),
        };
        let model = match model {
            Some(m) => m,
            None => String::from_str(DEFAULT_MODEL),
        };
        GatewayConfig { host, model, strategy }
    }
}

} // verus!
