//! Errors of the operating system services the launcher relies on.
use vstd::prelude::*;
use vstd::std_specs::convert::FromSpecImpl;

verus! {

/// Why the launcher's start-up registration could not be read or changed.
pub enum StartupError {
    AccessDenied,
    File(std::io::Error),
    Other(String),
}

impl From<std::io::Error> for StartupError {
    fn from(v: std::io::Error) -> (e: StartupError) {
        StartupError::File(v)
    }
}

impl FromSpecImpl<std::io::Error> for StartupError {
    open spec fn obeys_from_spec() -> bool {
        true
    }

    open spec fn from_spec(v: std::io::Error) -> StartupError {
        StartupError::File(v)
    }
}

impl From<String> for StartupError {
    fn from(v: String) -> (e: StartupError) {
        StartupError::Other(v)
    }
}

impl FromSpecImpl<String> for StartupError {
    open spec fn obeys_from_spec() -> bool {
        true
    }

    open spec fn from_spec(v: String) -> StartupError {
        StartupError::Other(v)
    }
}

} // verus!
