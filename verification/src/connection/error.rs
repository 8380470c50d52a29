use vstd::prelude::*;
use vstd::string::StringExecFns;


verus! {

/// Error when parsing config.
#[derive(Debug)]
pub enum ConfigError {
    /// Error parsing url.
    Parse(&'static str),
}

impl ConfigError {
    /// The human readable description: `Config error: ` and the reason.
    pub fn message(&self) -> (r: String)
        ensures
            self matches ConfigError::Parse(e) ==> r@ == "Config error: "@ + e@,
    {
        match self {
            ConfigError::Parse(e) => {
                let mut s = String::new();
                s.append("Config error: ");
                s.append(e);
                s
            },
        }
    }
}

} // verus!
