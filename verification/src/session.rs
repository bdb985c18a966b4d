//! The session orchestrator: mints the per-session alias and walks the
//! connect flow through its fixed order — locate, ensure running, push
//! credentials, register, launch, deregister — with the registry cleanup
//! unconditional on how the launch went.

use vstd::prelude::*;

use crate::bytes::append_bytes;
use crate::errors::AppError;
use crate::registry::field_wf;

verus! {

/// `"ec2Connector-"`: every session alias starts with it.
pub open spec fn lit_alias_prefix() -> Seq<u8> {
    seq![101u8, 99u8, 50u8, 67u8, 111u8, 110u8, 110u8, 101u8, 99u8, 116u8, 111u8, 114u8, 45u8]
}

/// The alias for one session: the tool's prefix, the resource name, and a
/// minute-stamp, so that each session gets its own registry entry.
pub open spec fn session_alias(name: Seq<u8>, stamp: Seq<u8>) -> Seq<u8> {
    lit_alias_prefix() + name + seq![45u8] + stamp
}

/// Relies on chrono's `Utc::now` and its strftime formatting: rendering the
/// current time as `"%d-%m-%Y-%H.%M"` writes decimal digits, at most a sign,
/// and the literal `-` and `.` separators — never a newline, never nothing.
#[verifier::external_body]
fn now_timestamp() -> (r: Vec<u8>)
    ensures
        r@.len() > 0,
        forall|k: int| 0 <= k < r@.len() ==> r@[k] != 10u8,
{
    let items = chrono::format::strftime::StrftimeItems::new("%d-%m-%Y-%H.%M");
    chrono::Utc::now().format_with_items(items).to_string().into_bytes()
}

/// Builds the alias from a resource name and a stamp.
pub fn mint_alias(resource_name: &Vec<u8>, stamp: &Vec<u8>) -> (alias: Vec<u8>)
    ensures
        alias@ == session_alias(resource_name@, stamp@),
{
    let mut alias: Vec<u8> = Vec::new();
    alias.push(101u8);
    alias.push(99u8);
    alias.push(50u8);
    alias.push(67u8);
    alias.push(111u8);
    alias.push(110u8);
    alias.push(110u8);
    alias.push(101u8);
    alias.push(99u8);
    alias.push(116u8);
    alias.push(111u8);
    alias.push(114u8);
    alias.push(45u8);
    assert(alias@ =~= lit_alias_prefix());
    append_bytes(&mut alias, resource_name);
    alias.push(45u8);
    append_bytes(&mut alias, stamp);
    assert(alias@ =~= session_alias(resource_name@, stamp@));
    alias
}

/// Mints the alias for a fresh session on the named resource: the prefix,
/// the name, and the current minute-stamp. The stamp holds no newline, so
/// the alias is a single-line registry field whenever the name is.
pub fn mint_session_alias(resource_name: &Vec<u8>) -> (alias: Vec<u8>)
    ensures
        exists|stamp: Seq<u8>|
            {
                &&& alias@ == #[trigger] session_alias(resource_name@, stamp)
                &&& stamp.len() > 0
                &&& field_wf(stamp)
            },
        field_wf(resource_name@) ==> field_wf(alias@),
        alias@.len() > 14 + resource_name@.len(),
{
    let stamp = now_timestamp();
    let alias = mint_alias(resource_name, &stamp);
    proof {
        let la = alias@;
        let nm = resource_name@;
        let st = stamp@;
        assert(la == session_alias(nm, st));
        assert(field_wf(st));
        if field_wf(nm) {
            assert forall|k: int| 0 <= k < la.len() implies la[k] != 10u8 by {
                if k < 13 {
                    assert(la[k] == lit_alias_prefix()[k]);
                } else if k < 13 + nm.len() {
                    assert(la[k] == nm[k - 13]);
                } else if k == 13 + nm.len() {
                    assert(la[k] == 45u8);
                } else {
                    assert(la[k] == st[k - 14 - nm.len()]);
                }
            }
        }
    }
    alias
}

/// Where the connect flow stands. Each phase names the step whose outcome
/// is awaited next.
#[derive(Debug, Clone, Copy, PartialEq, Eq, Structural)]
pub enum SessionPhase {
    /// Resolving the resource name.
    Locating,
    /// Driving the resource to a running-and-healthy state.
    EnsuringRunning,
    /// Injecting the session's public key.
    PushingCredentials,
    /// Writing the registry entry.
    Registering,
    /// Launching the external client.
    Launching,
    /// Retracting the registry entry; remembers how the launch went.
    Deregistering { launch_ok: bool },
    /// Terminal.
    Finished { ok: bool },
}

/// The connect flow's order, as one transition: each step must succeed to
/// reach the next; a failure before the launch ends the flow; the launch's
/// outcome — success or failure — always leads to deregistration, so no
/// stale entry is left behind; and the session succeeded only if both the
/// launch and the cleanup did.
pub open spec fn session_next(phase: SessionPhase, succeeded: bool) -> SessionPhase {
    match phase {
        SessionPhase::Locating => if succeeded {
            SessionPhase::EnsuringRunning
        } else {
            SessionPhase::Finished { ok: false }
        },
        SessionPhase::EnsuringRunning => if succeeded {
            SessionPhase::PushingCredentials
        } else {
            SessionPhase::Finished { ok: false }
        },
        SessionPhase::PushingCredentials => if succeeded {
            SessionPhase::Registering
        } else {
            SessionPhase::Finished { ok: false }
        },
        SessionPhase::Registering => if succeeded {
            SessionPhase::Launching
        } else {
            SessionPhase::Finished { ok: false }
        },
        SessionPhase::Launching => SessionPhase::Deregistering { launch_ok: succeeded },
        SessionPhase::Deregistering { launch_ok } => SessionPhase::Finished {
            ok: launch_ok && succeeded,
        },
        SessionPhase::Finished { ok } => SessionPhase::Finished { ok },
    }
}

/// Advances the connect flow by one step outcome.
pub fn session_step(phase: SessionPhase, succeeded: bool) -> (next: SessionPhase)
    ensures
        next == session_next(phase, succeeded),
{
    match phase {
        SessionPhase::Locating => if succeeded {
            SessionPhase::EnsuringRunning
        } else {
            SessionPhase::Finished { ok: false }
        },
        SessionPhase::EnsuringRunning => if succeeded {
            SessionPhase::PushingCredentials
        } else {
            SessionPhase::Finished { ok: false }
        },
        SessionPhase::PushingCredentials => if succeeded {
            SessionPhase::Registering
        } else {
            SessionPhase::Finished { ok: false }
        },
        SessionPhase::Registering => if succeeded {
            SessionPhase::Launching
        } else {
            SessionPhase::Finished { ok: false }
        },
        SessionPhase::Launching => SessionPhase::Deregistering { launch_ok: succeeded },
        SessionPhase::Deregistering { launch_ok } => SessionPhase::Finished {
            ok: launch_ok && succeeded,
        },
        SessionPhase::Finished { ok } => SessionPhase::Finished { ok },
    }
}

/// Reads the outcome of the external client invocation. A failure is
/// `CommandFailed` with the runner's message.
pub fn launch_outcome(outcome: Result<(), String>) -> (r: Result<(), AppError>)
    ensures
        outcome is Ok ==> r is Ok,
        outcome matches Err(m) ==> (r matches Err(e) && e matches AppError::CommandFailed(pm)
            && pm == m),
{
    match outcome {
        Ok(_) => Ok(()),
        Err(m) => Err(AppError::CommandFailed(m)),
    }
}

/// Decides whether the prerequisites are in place, from the two
/// configuration probes: provider credentials first, then source-hosting
/// credentials; the first missing one names the failure.
pub fn is_configured(aws_ok: bool, github_ok: bool) -> (r: Result<bool, AppError>)
    ensures
        aws_ok && github_ok ==> r == Ok::<bool, AppError>(true),
        !aws_ok ==> (r matches Err(e) && e matches AppError::ConfigurationError(m) && m@
            == "AWS credentials are not configured"@),
        aws_ok && !github_ok ==> (r matches Err(e) && e matches AppError::ConfigurationError(m)
            && m@ == "GitHub credentials are not configured"@),
{
    if !aws_ok {
        Err(AppError::ConfigurationError("AWS credentials are not configured".to_owned()))
    } else if !github_ok {
        Err(AppError::ConfigurationError("GitHub credentials are not configured".to_owned()))
    } else {
        Ok(true)
    }
}

} // verus!
