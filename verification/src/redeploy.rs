//! The redeploy trigger: resolves a managed service's name to its identifier
//! by exact match over the provider's service list, and turns the outcome of
//! the one deployment-start call into an operation handle. Acceptance of the
//! request is the success criterion; the operation is not polled further.

use vstd::prelude::*;

use crate::bytes::{bytes_eq, copy_bytes};
use crate::errors::AppError;

verus! {

/// One service as the provider lists it: its name, and its identifier when
/// the provider reported one.
#[derive(Debug)]
pub struct ServiceSummary {
    pub service_name: Vec<u8>,
    pub service_arn: Option<Vec<u8>>,
}

/// The accepted deployment: which service, and the operation identifier the
/// provider minted for the request.
#[derive(Debug)]
pub struct OperationHandle {
    pub service_arn: Vec<u8>,
    pub operation_id: Vec<u8>,
}

/// The first index at or after `from` whose service name matches exactly.
pub open spec fn find_service_index(
    services: Seq<ServiceSummary>,
    name: Seq<u8>,
    from: int,
) -> Option<int>
    decreases services.len() - from,
{
    if from < 0 || from >= services.len() {
        None
    } else if services[from].service_name@ == name {
        Some(from)
    } else {
        find_service_index(services, name, from + 1)
    }
}

/// Resolves a service name to the identifier of the first service whose
/// name matches exactly. No match is `NotFound`, and so is a match whose
/// identifier the provider left out.
pub fn find_service_arn(name: &Vec<u8>, services: &Vec<ServiceSummary>) -> (r: Result<
    Vec<u8>,
    AppError,
>)
    ensures
        find_service_index(services@, name@, 0) is None ==> (r matches Err(e) && e matches
            AppError::NotFound(m) && m@ == "Service not found"@),
        find_service_index(services@, name@, 0) matches Some(i) ==> match services@[i]
            .service_arn {
            Some(arn) => r matches Ok(a) && a@ == arn@,
            None => r matches Err(e) && e matches AppError::NotFound(m) && m@
                == "Service ARN not found"@,
        },
{
    let mut i: usize = 0;
    while i < services.len()
        invariant
            i <= services@.len(),
            find_service_index(services@, name@, 0) == find_service_index(
                services@,
                name@,
                i as int,
            ),
        decreases services@.len() - i,
    {
        if bytes_eq(&services[i].service_name, name) {
            match &services[i].service_arn {
                Some(arn) => {
                    return Ok(copy_bytes(arn));
                },
                None => {
                    return Err(AppError::NotFound("Service ARN not found".to_owned()));
                },
            }
        }
        assert(find_service_index(services@, name@, i as int) == find_service_index(
            services@,
            name@,
            i + 1,
        ));
        i = i + 1;
    }
    assert(find_service_index(services@, name@, i as int) is None);
    Err(AppError::NotFound("Service not found".to_owned()))
}

/// Turns the outcome of the single deployment-start call into an operation
/// handle, or surfaces the provider's rejection as `ProviderError`.
pub fn accept_deployment(service_arn: Vec<u8>, outcome: Result<Vec<u8>, String>) -> (r: Result<
    OperationHandle,
    AppError,
>)
    ensures
        outcome matches Ok(op) ==> (r matches Ok(h) && h.service_arn@ == service_arn@
            && h.operation_id@ == op@),
        outcome matches Err(m) ==> (r matches Err(e) && e matches AppError::ProviderError(pm)
            && pm == m),
{
    match outcome {
        Ok(op) => Ok(OperationHandle { service_arn, operation_id: op }),
        Err(m) => Err(AppError::ProviderError(m)),
    }
}

} // verus!
