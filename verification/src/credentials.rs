//! The credential provisioner's decisions. Key material lives on disk and
//! the injection call belongs to the provider; what is decided here is when
//! a key pair must be generated and what the injection outcome means for
//! the session.

use vstd::prelude::*;

use crate::errors::AppError;

verus! {

/// A local key pair: where the private half lives, and the public half's
/// text, read back from disk.
#[derive(Debug)]
pub struct KeyPair {
    pub private_path: Vec<u8>,
    pub public_key_material: Vec<u8>,
}

/// Whether `ensure_keypair` must generate key material.
#[derive(Debug, Clone, Copy, PartialEq, Eq, Structural)]
pub enum KeyPairAction {
    /// No key pair on disk yet: generate one.
    Generate,
    /// A key pair is already on disk: reuse it, never rotate it here.
    Reuse,
}

/// Generation happens exactly once: only when no key pair exists on disk
/// yet. This is what makes `ensure_keypair` idempotent.
pub fn keypair_action(key_exists: bool) -> (a: KeyPairAction)
    ensures
        a == (if key_exists {
            KeyPairAction::Reuse
        } else {
            KeyPairAction::Generate
        }),
{
    if key_exists {
        KeyPairAction::Reuse
    } else {
        KeyPairAction::Generate
    }
}

/// Reads the outcome of the one public-key injection call. A rejection is
/// fatal for the session attempt (`PushFailed`, no retry): without injected
/// credentials no session can be opened.
pub fn push_outcome(outcome: Result<(), String>) -> (r: Result<(), AppError>)
    ensures
        outcome is Ok ==> r is Ok,
        outcome matches Err(m) ==> (r matches Err(e) && e matches AppError::PushFailed(pm)
            && pm == m),
{
    match outcome {
        Ok(_) => Ok(()),
        Err(m) => Err(AppError::PushFailed(m)),
    }
}

} // verus!
