//! Driver initialization: the provider binder.
//!
//! Run exactly once, before any other callback, while the caller holds
//! exclusive access to the shared client handle. It bounds every remote
//! round-trip by a fixed five-second call timeout, fixes the driver's
//! authentication identity, discovers the advertised providers, selects
//! exactly one under the build-time policy, and binds it as the implicit
//! provider of every later call. Any failure is fatal and surfaces as
//! the generic error; the host must then not invoke further callbacks.

use crate::client::client_list_providers;
use crate::client::client_set_default_auth;
use crate::client::client_set_timeout;
use crate::client::client_set_implicit_provider;
use crate::client::record_diagnostic;
use crate::provider::select_provider;
use crate::provider::spec_select;
use crate::provider::ProviderEntry;
use crate::provider::SelectionPolicy;
use crate::status::PSA_ERROR_GENERIC_ERROR;
use crate::status::PSA_SUCCESS;
use parsec_client::BasicClient;
use vstd::prelude::*;

verus! {

/// The constant label under which this driver authenticates to the
/// remote service.
pub const DRIVER_AUTH_NAME: &'static str = "Parsec SE Driver";

/// The fixed bound, in seconds, on each remote round-trip.
pub const CALL_TIMEOUT_SECONDS: u64 = 5;

/// The decision initialization takes once discovery has answered: which
/// status to return and which advertised provider to bind.  Success with
/// the selected entry exactly when the policy selects one of the
/// advertised list; the generic error, and nothing to bind, when none
/// qualifies.
pub fn binding_decision(policy: SelectionPolicy, providers: &Vec<ProviderEntry>) -> (r: (
    i32,
    Option<ProviderEntry>,
))
    ensures
        match spec_select(policy, providers@) {
            Some(entry) => r.0 == PSA_SUCCESS && r.1 == Some(entry),
            None => r.0 == PSA_ERROR_GENERIC_ERROR && r.1 == Option::<ProviderEntry>::None,
        },
{
    match select_provider(policy, providers) {
        Some(entry) => (PSA_SUCCESS, Some(entry)),
        None => (PSA_ERROR_GENERIC_ERROR, None),
    }
}

/// Initialize the driver on the (still unbound) client handle.
///
/// The five-second call timeout is configured first, then the
/// authentication identity, before any discovery round-trip.  Either
/// every step — the timeout, the authentication identity, discovering
/// the advertised providers, selecting one under the policy, binding it
/// — succeeds and the success status is returned, or initialization is
/// abandoned at the failing step with the generic error, a diagnostic
/// is recorded, and no further callback may rely on the handle.  The
/// status returned for a provider list is fixed, list by list, by
/// `binding_decision`'s contract; a provider is bound only on the
/// success path.
pub fn p_init(client: &mut BasicClient, policy: SelectionPolicy) -> (status: i32)
    ensures
        status == PSA_SUCCESS || status == PSA_ERROR_GENERIC_ERROR,
{
    client_set_timeout(client, CALL_TIMEOUT_SECONDS);
    if let Err(e) = client_set_default_auth(client, DRIVER_AUTH_NAME) {
        record_diagnostic("error setting the default authentication method", Some(&e));
        return PSA_ERROR_GENERIC_ERROR;
    }
    let providers = match client_list_providers(client) {
        Ok(providers) => providers,
        Err(e) => {
            record_diagnostic("error getting the available providers", Some(&e));
            return PSA_ERROR_GENERIC_ERROR;
        },
    };
    let (status, selected) = binding_decision(policy, &providers);
    match selected {
        Some(entry) => {
            if client_set_implicit_provider(client, entry.id) {
                status
            } else {
                record_diagnostic("the selected provider identifier could not be bound", None);
                PSA_ERROR_GENERIC_ERROR
            }
        },
        None => {
            record_diagnostic("no advertised provider satisfies the selection policy", None);
            status
        },
    }
}

} // verus!
