//! The settings of the proxy, as they stand once the configuration file has
//! been read and parsed.

use vstd::prelude::*;
use crate::paths::PathSet;

verus! {

/// The configuration for the service.
#[derive(Debug)]
pub struct Configuration {
    /// The address to bind to, as written in the configuration.
    pub bind: String,
    /// The base URI to proxy.
    pub base_uri: String,
    /// A definition of what and how to inject.
    pub inject: Inject,
}

/// What is injected, where, and for which requests.
#[derive(Debug)]
pub struct Inject {
    /// The path to the file to inject, relative to the configuration file.
    pub source: String,
    /// The marker string before which to inject the file.
    pub marker: String,
    /// The paths for which to inject data.
    pub paths: PathSet,
}

} // verus!
