//! The asymmetric operation adapter: the host's sign and verify
//! callbacks.
//!
//! Both operations derive the remote key name from the host's key slot,
//! marshal the digest and signature bytes between the two call
//! contracts, and translate the remote outcome into the host's status
//! space. A failed cryptographic check surfaces as the invalid-signature
//! status, never as the generic error: callers branch on the difference.

use crate::buffer::deliver_into_buffer;
use crate::client::client_error_to_psa_status;
use crate::client::client_sign_hash;
use crate::client::client_verify_hash;
use crate::name::key_slot_to_key_name;
use crate::status::spec_in_host_status_space;
use crate::status::PSA_SUCCESS;
use parsec_client::BasicClient;
use parsec_interface::operations::psa_algorithm::AsymmetricSignature;
use vstd::prelude::*;

verus! {

/// Sign a pre-computed digest with the key under the slot's derived
/// name, copying the produced signature into the host-provided buffer.
///
/// On success the signature stands at the buffer's front, the bytes
/// past it are untouched, and its length is returned beside the success
/// status. A buffer smaller than the signature earns the
/// buffer-too-small status with not a single byte written; on any
/// status other than success the buffer is exactly as the host handed
/// it over, and the byte count is zero.
pub fn sign_hash(
    client: &BasicClient,
    key_slot: u64,
    hash: &Vec<u8>,
    sign_algorithm: AsymmetricSignature,
    output: &mut Vec<u8>,
) -> (r: (i32, usize))
    ensures
        final(output)@.len() == old(output)@.len(),
        r.0 != PSA_SUCCESS ==> final(output)@ == old(output)@ && r.1 == 0,
        r.0 == PSA_SUCCESS ==> r.1 <= old(output)@.len(),
        r.1 <= old(output)@.len() && final(output)@.skip(r.1 as int) == old(output)@.skip(
            r.1 as int,
        ),
        spec_in_host_status_space(r.0),
{
    let key_name = key_slot_to_key_name(key_slot);
    match client_sign_hash(client, &key_name, hash, sign_algorithm) {
        Ok(signature) => deliver_into_buffer(&signature, output),
        Err(e) => (client_error_to_psa_status(&e), 0),
    }
}

/// Check a signature over a pre-computed digest with the key under the
/// slot's derived name.  Success means the service accepted the
/// signature; a failed check surfaces as the invalid-signature status
/// through the translation table, and any other remote failure is
/// translated and propagated.
pub fn verify_hash(
    client: &BasicClient,
    key_slot: u64,
    hash: &Vec<u8>,
    sign_algorithm: AsymmetricSignature,
    signature: &Vec<u8>,
) -> (status: i32)
    ensures
        spec_in_host_status_space(status),
{
    let key_name = key_slot_to_key_name(key_slot);
    match client_verify_hash(client, &key_name, hash, sign_algorithm, signature) {
        Ok(()) => PSA_SUCCESS,
        Err(e) => client_error_to_psa_status(&e),
    }
}

} // verus!
