//! The trusted boundary to the remote Parsec client.
//!
//! Every network round-trip the driver makes goes through one of the
//! wrappers below. Each wrapper hands the verified code plain values —
//! wire codes, UUIDs as integers, byte vectors — and nothing is assumed
//! of a remote answer beyond its type: the verified callers state what
//! holds whatever the service replied.

use crate::provider::ProviderEntry;
use crate::status::outcome_in_table;
use crate::status::spec_in_host_status_space;
use crate::status::translate_existence_outcome;
use crate::status::translate_outcome;
use crate::status::RemoteOutcome;
use parsec_interface::operations::psa_algorithm::AsymmetricSignature;
use parsec_interface::operations::psa_key_attributes::Attributes;
use parsec_interface::requests::ProviderId;
use parsec_client::error::ClientErrorKind;
use parsec_client::error::Error;
use std::io::Write;
use parsec_client::BasicClient;
use vstd::prelude::*;

verus! {

#[verifier::external_type_specification]
#[verifier::external_body]
/// The remote client handle, opaque to the verified code.
pub struct ExBasicClient(BasicClient);

#[verifier::external_type_specification]
#[verifier::external_body]
/// The remote client's error type, opaque to the verified code.
pub struct ExError(Error);

#[verifier::external_type_specification]
#[verifier::external_body]
/// The key attribute bundle the host hands over, carried through opaquely.
pub struct ExAttributes(Attributes);

#[verifier::external_type_specification]
#[verifier::external_body]
/// The asymmetric signature algorithm selector, carried through opaquely.
pub struct ExAsymmetricSignature(AsymmetricSignature);

/// Relies on parsec_client::error::Error: a service answer carries its
/// `ResponseStatus`, a `repr(u16)` enumeration whose discriminant is the
/// wire code; the client library's own not-found report is told apart;
/// every other variant arose on the client or transport side.
#[verifier::external_body]
fn classify_error(error: &Error) -> (outcome: RemoteOutcome)
{
    match error {
        Error::Service(status) => RemoteOutcome::Service(*status as u16),
        Error::Client(ClientErrorKind::NotFound) => RemoteOutcome::ClientNotFound,
        Error::Client(_) => RemoteOutcome::ClientOther,
    }
}

/// Relies on std::io::Stderr's write_fmt (through writeln): records a
/// best-effort diagnostic line, naming the error value when one is
/// given, before its information is collapsed away.
#[verifier::external_body]
pub(crate) fn record_diagnostic(context: &str, error: Option<&Error>)
{
    match error {
        Some(e) => {
            let _ = writeln!(std::io::stderr(), "{}: {:?}", context, e);
        },
        None => {
            let _ = writeln!(std::io::stderr(), "{}", context);
        },
    }
}

/// Translate a remote client error into the host's status space.  A
/// service answer goes row for row through the translation table, fixed
/// by `translate_outcome`'s contract for every outcome; a client-side or
/// transport failure collapses to the generic error.  An outcome without
/// a row of its own is recorded as a diagnostic before the collapse, so
/// that no error is silently swallowed.
pub fn client_error_to_psa_status(error: &Error) -> (status: i32)
    ensures
        spec_in_host_status_space(status),
{
    let outcome = classify_error(error);
    if !outcome_in_table(outcome) {
        record_diagnostic("remote outcome without a translation row becomes the generic error", Some(error));
    }
    proof {
        crate::status::lemma_translation_in_host_space(outcome);
    }
    translate_outcome(outcome)
}

/// Translate an error of the key-existence check into the host's status
/// space, fixed by `translate_existence_outcome`'s contract for every
/// outcome: the pinned client library reports an absent key as its own
/// not-found error, which the host must see as the does-not-exist
/// status; everything else translates as a remote client error does,
/// with the same diagnostic on an outcome without a row.
pub fn client_error_to_existence_status(error: &Error) -> (status: i32)
    ensures
        spec_in_host_status_space(status),
{
    let outcome = classify_error(error);
    let absent = match outcome {
        RemoteOutcome::ClientNotFound => true,
        _ => false,
    };
    if !absent && !outcome_in_table(outcome) {
        record_diagnostic("remote outcome without a translation row becomes the generic error", Some(error));
    }
    proof {
        crate::status::lemma_translation_in_host_space(outcome);
    }
    translate_existence_outcome(outcome)
}

/// Relies on BasicClient::set_timeout: bounds every operation on the
/// IPC stream to the service by the given number of seconds.
#[verifier::external_body]
pub(crate) fn client_set_timeout(client: &mut BasicClient, seconds: u64)
{
    client.set_timeout(Some(std::time::Duration::new(seconds, 0)));
}

/// Relies on BasicClient::set_default_auth: queries the service for its
/// authenticators and fixes the given application name as the default
/// authentication identity; errs when none is usable.
#[verifier::external_body]
pub(crate) fn client_set_default_auth(client: &mut BasicClient, app_name: &str) -> (r: Result<
    (),
    Error,
>)
{
    client.set_default_auth(Some(app_name.to_string()))
}

/// Relies on BasicClient::list_providers: returns one entry per backend
/// the service advertises; the closure only reads each entry's wire
/// identifier (a `repr(u8)` enumeration) and its UUID as the 128-bit
/// big-endian value.
#[verifier::external_body]
pub(crate) fn client_list_providers(client: &BasicClient) -> (r: Result<Vec<ProviderEntry>, Error>)
{
    Ok(
        client.list_providers()?.iter().map(
            |p| ProviderEntry { id: p.id as u8, uuid: p.uuid.as_u128() },
        ).collect(),
    )
}

/// Relies on BasicClient::set_implicit_provider: binds the provider for
/// every later call.  The identifier is converted back through
/// ProviderId::try_from — which covers every listed provider — and the
/// result says whether the binding was made.
#[verifier::external_body]
pub(crate) fn client_set_implicit_provider(client: &mut BasicClient, id: u8) -> (bound: bool)
{
    match ProviderId::try_from(id) {
        Ok(provider) => {
            client.set_implicit_provider(provider);
            true
        },
        Err(_) => false,
    }
}

/// Relies on BasicClient::key_attributes: lists the stored keys and
/// returns the attributes of the one under the given name; errs with
/// the client library's own not-found error when no such key is stored.
#[verifier::external_body]
pub(crate) fn client_key_attributes(client: &BasicClient, key_name: &String) -> (r: Result<
    Attributes,
    Error,
>)
{
    client.key_attributes(key_name.as_str())
}

/// Relies on BasicClient::psa_import_key: submits the key material and
/// attributes to the service under the given name.
#[verifier::external_body]
pub(crate) fn client_import_key(
    client: &BasicClient,
    key_name: &String,
    key_material: &Vec<u8>,
    key_attributes: Attributes,
) -> (r: Result<(), Error>)
{
    client.psa_import_key(key_name.as_str(), key_material.as_slice(), key_attributes)
}

/// Relies on BasicClient::psa_generate_key: asks the service to generate
/// a key with the given attributes under the given name.
#[verifier::external_body]
pub(crate) fn client_generate_key(
    client: &BasicClient,
    key_name: &String,
    key_attributes: Attributes,
) -> (r: Result<(), Error>)
{
    client.psa_generate_key(key_name.as_str(), key_attributes)
}

/// Relies on BasicClient::psa_export_public_key: returns the public part
/// of the key stored under the given name.
#[verifier::external_body]
pub(crate) fn client_export_public_key(client: &BasicClient, key_name: &String) -> (r: Result<
    Vec<u8>,
    Error,
>)
{
    client.psa_export_public_key(key_name.as_str())
}

/// Relies on BasicClient::psa_destroy_key: asks the service to destroy
/// the key stored under the given name; errs with the does-not-exist
/// status when no such key is stored.
#[verifier::external_body]
pub(crate) fn client_destroy_key(client: &BasicClient, key_name: &String) -> (r: Result<(), Error>)
{
    client.psa_destroy_key(key_name.as_str())
}

/// Relies on BasicClient::psa_sign_hash: asks the service to sign the
/// given pre-computed digest with the named key and algorithm, returning
/// the signature bytes.
#[verifier::external_body]
pub(crate) fn client_sign_hash(
    client: &BasicClient,
    key_name: &String,
    hash: &Vec<u8>,
    sign_algorithm: AsymmetricSignature,
) -> (r: Result<Vec<u8>, Error>)
{
    client.psa_sign_hash(key_name.as_str(), hash.as_slice(), sign_algorithm)
}

/// Relies on BasicClient::psa_verify_hash: asks the service to check the
/// given signature over the digest with the named key and algorithm;
/// errs with the invalid-signature status when the check fails.
#[verifier::external_body]
pub(crate) fn client_verify_hash(
    client: &BasicClient,
    key_name: &String,
    hash: &Vec<u8>,
    sign_algorithm: AsymmetricSignature,
    signature: &Vec<u8>,
) -> (r: Result<(), Error>)
{
    client.psa_verify_hash(key_name.as_str(), hash.as_slice(), sign_algorithm, signature.as_slice())
}

} // verus!
