//! The key management adapter: the host's key lifecycle callbacks.
//!
//! Each operation derives the remote key name from the host's key slot,
//! forwards the request on the shared client, and translates the remote
//! outcome into the host's status space. No state is kept locally: the
//! remote service is the sole owner of key material, and a failed
//! operation leaves nothing behind.

use crate::buffer::deliver_into_buffer;
use crate::client::client_destroy_key;
use crate::client::client_error_to_existence_status;
use crate::client::client_error_to_psa_status;
use crate::client::client_export_public_key;
use crate::client::client_generate_key;
use crate::client::client_import_key;
use crate::client::client_key_attributes;
use crate::name::key_slot_to_key_name;
use crate::status::spec_in_host_status_space;
use crate::status::PSA_ERROR_ALREADY_EXISTS;
use crate::status::PSA_ERROR_DOES_NOT_EXIST;
use crate::status::PSA_SUCCESS;
use parsec_client::BasicClient;
use parsec_interface::operations::psa_key_attributes::Attributes;
use vstd::prelude::*;

verus! {

/// Confirm that a host slot is bound to usable remote state: ask the
/// service for the attributes of the key under the slot's derived name.
/// The success status says the key is there.  An absent key surfaces as
/// the does-not-exist status whichever way it is reported — the client
/// library's own not-found error, or the service's does-not-exist
/// answer — through `client_error_to_existence_status`'s exact
/// translation; any other failure is translated as usual.
pub fn validate_slot(client: &BasicClient, key_slot: u64) -> (status: i32)
    ensures
        spec_in_host_status_space(status),
{
    let key_name = key_slot_to_key_name(key_slot);
    match client_key_attributes(client, &key_name) {
        Ok(_attributes) => PSA_SUCCESS,
        Err(e) => client_error_to_existence_status(&e),
    }
}

/// What slot allocation reports for each outcome of the existence
/// check: a key already under the slot's derived name makes the slot
/// unusable for new material, an absent key means the slot is free, and
/// any other outcome passes through unchanged.
pub fn allocation_status(check_status: i32) -> (status: i32)
    ensures
        check_status == PSA_SUCCESS ==> status == PSA_ERROR_ALREADY_EXISTS,
        check_status == PSA_ERROR_DOES_NOT_EXIST ==> status == PSA_SUCCESS,
        check_status != PSA_SUCCESS && check_status != PSA_ERROR_DOES_NOT_EXIST ==> status
            == check_status,
        spec_in_host_status_space(check_status) ==> spec_in_host_status_space(status),
{
    if check_status == PSA_SUCCESS {
        PSA_ERROR_ALREADY_EXISTS
    } else if check_status == PSA_ERROR_DOES_NOT_EXIST {
        PSA_SUCCESS
    } else {
        check_status
    }
}

/// Confirm that a host slot is usable for new key material: the success
/// status means the remote service holds nothing under the slot's
/// derived name; a key already there surfaces as the already-exists
/// status; any other failure of the existence check is translated and
/// propagated.  No state changes: the check is the only side effect.
pub fn allocate_slot(client: &BasicClient, key_slot: u64) -> (status: i32)
    ensures
        spec_in_host_status_space(status),
{
    let check_status = validate_slot(client, key_slot);
    allocation_status(check_status)
}

/// Import key material under the slot's derived name.  Success means the
/// service now holds the material; any remote failure is translated and
/// propagated, and no partial state is left locally.
pub fn import_key(
    client: &BasicClient,
    key_slot: u64,
    key_material: &Vec<u8>,
    key_attributes: Attributes,
) -> (status: i32)
    ensures
        spec_in_host_status_space(status),
{
    let key_name = key_slot_to_key_name(key_slot);
    match client_import_key(client, &key_name, key_material, key_attributes) {
        Ok(()) => PSA_SUCCESS,
        Err(e) => client_error_to_psa_status(&e),
    }
}

/// Ask the service to generate a key with the given attributes under the
/// slot's derived name.  Any remote failure is translated and propagated.
pub fn generate_key(client: &BasicClient, key_slot: u64, key_attributes: Attributes) -> (status:
    i32)
    ensures
        spec_in_host_status_space(status),
{
    let key_name = key_slot_to_key_name(key_slot);
    match client_generate_key(client, &key_name, key_attributes) {
        Ok(()) => PSA_SUCCESS,
        Err(e) => client_error_to_psa_status(&e),
    }
}

/// Export the public part of the key under the slot's derived name into
/// the host-provided buffer.
///
/// On success the written byte count is returned beside the success
/// status, the data stands at the buffer's front and the bytes past it
/// are untouched. A buffer smaller than the produced data earns the
/// buffer-too-small status with not a single byte written; on any status
/// other than success the buffer is exactly as the host handed it over,
/// and the byte count is zero.
pub fn export_public_key(client: &BasicClient, key_slot: u64, output: &mut Vec<u8>) -> (r: (
    i32,
    usize,
))
    ensures
        final(output)@.len() == old(output)@.len(),
        r.0 != PSA_SUCCESS ==> final(output)@ == old(output)@ && r.1 == 0,
        r.0 == PSA_SUCCESS ==> r.1 <= old(output)@.len(),
        r.1 <= old(output)@.len() && final(output)@.skip(r.1 as int) == old(output)@.skip(
            r.1 as int,
        ),
        spec_in_host_status_space(r.0),
{
    let key_name = key_slot_to_key_name(key_slot);
    match client_export_public_key(client, &key_name) {
        Ok(data) => deliver_into_buffer(&data, output),
        Err(e) => (client_error_to_psa_status(&e), 0),
    }
}

/// Ask the service to destroy the key under the slot's derived name.  An
/// absent key surfaces as the does-not-exist status, not as success; any
/// other remote failure is translated and propagated.
pub fn destroy_key(client: &BasicClient, key_slot: u64) -> (status: i32)
    ensures
        spec_in_host_status_space(status),
{
    let key_name = key_slot_to_key_name(key_slot);
    match client_destroy_key(client, &key_name) {
        Ok(()) => PSA_SUCCESS,
        Err(e) => client_error_to_psa_status(&e),
    }
}

} // verus!
