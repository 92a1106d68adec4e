//! Pluggable configuration sources: a registry of serialization formats with
//! suffix-based detection, sources that resolve a locator into text, and a
//! facade that reads that text under a required/optional policy.

pub mod consul;
pub mod format;
pub mod grammar;
pub mod source;

pub use consul::{ConfigError, Consul, Nacos};
pub use format::{ConsulFormat, ConsulStoredFormat, Format, NacosFormat, NacosStoredFormat};
pub use grammar::Table;
pub use source::{ConsulSource, ConsulSourceResult, Remote, SourceError};

use vstd::prelude::*;

verus! {

/// Command-line options of a program that loads its configuration.
pub struct Flag {
    /// Path of the configuration file.
    pub conf: String,
}

/// Watching a loaded configuration for changes: nothing to do at this layer,
/// so it always succeeds.
pub fn watch<T>(bootstrap: &T) -> (r: Result<(), ConfigError>)
    ensures
        r is Ok,
{
    Ok(())
}

pub fn add(left: usize, right: usize) -> (r: usize)
    requires
        left + right <= usize::MAX,
    ensures
        r == left + right,
{
    left + right
}

} // verus!
