//! The error taxonomy: every provider- or environment-specific failure is
//! normalized into one of these variants before it reaches a caller.

use vstd::prelude::*;

verus! {

/// A terminal failure of one invocation.
#[derive(Debug)]
pub enum AppError {
    /// The resource or service name did not resolve to anything.
    NotFound(String),
    /// A control-plane call failed (network, auth, throttling).
    ProviderError(String),
    /// The start request was rejected by the provider.
    StartFailed(String),
    /// The credential injection was rejected by the provider.
    PushFailed(String),
    /// The local home/config directory cannot be determined.
    RegistryUnavailable,
    /// An external process invocation failed.
    CommandFailed(String),
    /// Prerequisite credentials or tooling are not configured.
    ConfigurationError(String),
}

} // verus!
