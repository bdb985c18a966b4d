//! Remote session orchestrator: resolves a named compute resource, drives the
//! start/health-check state machine, provisions ephemeral SSH credentials, and
//! keeps a local SSH connection registry in sync around each session.

pub mod args;
pub mod bytes;
pub mod credentials;
pub mod errors;
pub mod locator;
pub mod power;
pub mod redeploy;
pub mod registry;
pub mod session;
