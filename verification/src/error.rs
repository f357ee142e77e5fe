//! The engine's error taxonomy.

use vstd::prelude::*;

verus! {

/// Every failure the engine reports.  Each variant carries a human-readable
/// message describing the failing operation.
#[derive(Debug, Clone, PartialEq, Eq)]
pub enum V39Error {
    /// A subsystem that must exist exactly once was initialized twice.
    Reinit(String),
    /// No usable graphics device was found at startup.
    NoSuitableDevie(String),
    /// A graphics-context call failed.
    GlError(String),
    /// A renderer operation failed (resource creation, invalid handle).
    Renderer(String),
    /// An image could not be decoded.
    Image(String),
    /// Any other failure.
    Error(String),
}

pub type V39Result<T> = Result<T, V39Error>;

impl From<String> for V39Error {
    fn from(value: String) -> (r: Self) {
        V39Error::Error(value)
    }
}

impl vstd::std_specs::convert::FromSpecImpl<String> for V39Error {
    open spec fn obeys_from_spec() -> bool {
        true
    }

    open spec fn from_spec(value: String) -> Self {
        V39Error::Error(value)
    }
}

} // verus!
