//! The resource locator: turns the provider's answer to a filtered
//! list-by-name query into a resolved resource reference, or the exact
//! error the query outcome calls for. Zero matches is `NotFound`; a failed
//! query is `ProviderError` with the provider's message; anything else is
//! the first match, with the provider's lifecycle state normalized to a
//! power state.

use vstd::prelude::*;

use crate::bytes::copy_bytes;
use crate::errors::AppError;
use crate::power::PowerState;

verus! {

/// The lifecycle states a provider can report for a compute resource.
#[derive(Debug, Clone, Copy, PartialEq, Eq, Structural)]
pub enum LifecycleState {
    Pending,
    Running,
    ShuttingDown,
    Terminated,
    Stopping,
    Stopped,
    Other,
}

/// One match of the list query: identifier, network address (possibly
/// empty until the resource is fully up), and lifecycle state.
#[derive(Debug)]
pub struct InstanceDescription {
    pub instance_id: Vec<u8>,
    pub public_dns: Vec<u8>,
    pub lifecycle: LifecycleState,
}

/// A resolved resource: the queried name, the provider identifier (immutable
/// once resolved), the address as last seen, and the derived power state.
#[derive(Debug)]
pub struct ResourceRef {
    pub name: Vec<u8>,
    pub provider_id: Vec<u8>,
    pub address: Vec<u8>,
    pub power_state: PowerState,
}

/// `Running` iff the provider reports a running lifecycle state; every other
/// lifecycle state normalizes to `Stopped`.
pub open spec fn normalize_lifecycle(l: LifecycleState) -> PowerState {
    if l == LifecycleState::Running {
        PowerState::Running
    } else {
        PowerState::Stopped
    }
}

/// Normalizes a reported lifecycle state to a power state.
pub fn lifecycle_power(l: LifecycleState) -> (p: PowerState)
    ensures
        p == normalize_lifecycle(l),
{
    if l == LifecycleState::Running {
        PowerState::Running
    } else {
        PowerState::Stopped
    }
}

/// What `resolve` must answer for a given query outcome: the provider's
/// error verbatim, `NotFound` on an empty result set, and otherwise the
/// first match, with the lifecycle state normalized.
pub open spec fn resolve_post(
    name: Seq<u8>,
    query: Result<Vec<InstanceDescription>, String>,
    r: Result<ResourceRef, AppError>,
) -> bool {
    match query {
        Err(m) => r matches Err(e) && e matches AppError::ProviderError(pm) && pm == m,
        Ok(list) => if list@.len() == 0 {
            r matches Err(e) && e matches AppError::NotFound(nm) && nm@
                == "No matching instances found"@
        } else {
            r matches Ok(rr) && rr.name@ == name && rr.provider_id@ == list@[0].instance_id@
                && rr.address@ == list@[0].public_dns@ && rr.power_state == normalize_lifecycle(
                list@[0].lifecycle,
            )
        },
    }
}

/// Resolves a name from the outcome of the provider's list-by-name-tag
/// query. A failed query is surfaced as `ProviderError` with the provider's
/// message — never a silent default; an empty result set is `NotFound`;
/// otherwise the first match is returned, deterministically.
pub fn resolve(name: &Vec<u8>, query: Result<Vec<InstanceDescription>, String>) -> (r: Result<
    ResourceRef,
    AppError,
>)
    ensures
        resolve_post(name@, query, r),
{
    match query {
        Err(m) => Err(AppError::ProviderError(m)),
        Ok(mut list) => {
            if list.len() == 0 {
                Err(AppError::NotFound("No matching instances found".to_owned()))
            } else {
                let first = list.remove(0);
                Ok(
                    ResourceRef {
                        name: copy_bytes(name),
                        provider_id: first.instance_id,
                        address: first.public_dns,
                        power_state: lifecycle_power(first.lifecycle),
                    },
                )
            }
        },
    }
}

} // verus!
