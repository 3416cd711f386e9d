//! Translation of remote-service outcomes into the host's PSA status space.
//!
//! The host understands a fixed set of small negative integers (plus zero
//! for success). The remote service answers with a richer wire status; the
//! translator below collapses every possible outcome into exactly one host
//! code, following an explicit table with a single generic-error fallback.

use vstd::prelude::*;

verus! {

/// Host status: operation succeeded.
pub const PSA_SUCCESS: i32 = 0;
/// Host status: an error not covered by any more specific code.
pub const PSA_ERROR_GENERIC_ERROR: i32 = -132;
/// Host status: the requested action is denied by a policy.
pub const PSA_ERROR_NOT_PERMITTED: i32 = -133;
/// Host status: the operation or a parameter is not supported.
pub const PSA_ERROR_NOT_SUPPORTED: i32 = -134;
/// Host status: the parameters passed are invalid.
pub const PSA_ERROR_INVALID_ARGUMENT: i32 = -135;
/// Host status: the key handle is not valid.
pub const PSA_ERROR_INVALID_HANDLE: i32 = -136;
/// Host status: the action cannot be performed in the current state.
pub const PSA_ERROR_BAD_STATE: i32 = -137;
/// Host status: an output buffer is too small.
pub const PSA_ERROR_BUFFER_TOO_SMALL: i32 = -138;
/// Host status: an item with that identity already exists.
pub const PSA_ERROR_ALREADY_EXISTS: i32 = -139;
/// Host status: the requested item does not exist.
pub const PSA_ERROR_DOES_NOT_EXIST: i32 = -140;
/// Host status: there is not enough runtime memory.
pub const PSA_ERROR_INSUFFICIENT_MEMORY: i32 = -141;
/// Host status: there is not enough persistent storage.
pub const PSA_ERROR_INSUFFICIENT_STORAGE: i32 = -142;
/// Host status: not enough data when reading from a resource.
pub const PSA_ERROR_INSUFFICIENT_DATA: i32 = -143;
/// Host status: a communication failure inside the implementation.
pub const PSA_ERROR_COMMUNICATION_FAILURE: i32 = -145;
/// Host status: a storage failure that may have led to data loss.
pub const PSA_ERROR_STORAGE_FAILURE: i32 = -146;
/// Host status: a hardware failure was detected.
pub const PSA_ERROR_HARDWARE_FAILURE: i32 = -147;
/// Host status: not enough entropy for the requested action.
pub const PSA_ERROR_INSUFFICIENT_ENTROPY: i32 = -148;
/// Host status: the signature, MAC or hash is incorrect.
pub const PSA_ERROR_INVALID_SIGNATURE: i32 = -149;
/// Host status: the decrypted padding is incorrect.
pub const PSA_ERROR_INVALID_PADDING: i32 = -150;

/// Wire code of the remote service's successful-operation status.
pub const SERVICE_SUCCESS: u16 = 0;
/// Wire code of the remote generic-error status.
pub const SERVICE_GENERIC_ERROR: u16 = 1132;
/// Wire code of the remote not-permitted status.
pub const SERVICE_NOT_PERMITTED: u16 = 1133;
/// Wire code of the remote not-supported status.
pub const SERVICE_NOT_SUPPORTED: u16 = 1134;
/// Wire code of the remote invalid-argument status.
pub const SERVICE_INVALID_ARGUMENT: u16 = 1135;
/// Wire code of the remote invalid-handle status.
pub const SERVICE_INVALID_HANDLE: u16 = 1136;
/// Wire code of the remote bad-state status.
pub const SERVICE_BAD_STATE: u16 = 1137;
/// Wire code of the remote buffer-too-small status.
pub const SERVICE_BUFFER_TOO_SMALL: u16 = 1138;
/// Wire code of the remote already-exists status.
pub const SERVICE_ALREADY_EXISTS: u16 = 1139;
/// Wire code of the remote does-not-exist status.
pub const SERVICE_DOES_NOT_EXIST: u16 = 1140;
/// Wire code of the remote insufficient-memory status.
pub const SERVICE_INSUFFICIENT_MEMORY: u16 = 1141;
/// Wire code of the remote insufficient-storage status.
pub const SERVICE_INSUFFICIENT_STORAGE: u16 = 1142;
/// Wire code of the remote insufficient-data status.
pub const SERVICE_INSUFFICIENT_DATA: u16 = 1143;
/// Wire code of the remote communication-failure status.
pub const SERVICE_COMMUNICATION_FAILURE: u16 = 1145;
/// Wire code of the remote storage-failure status.
pub const SERVICE_STORAGE_FAILURE: u16 = 1146;
/// Wire code of the remote hardware-failure status.
pub const SERVICE_HARDWARE_FAILURE: u16 = 1147;
/// Wire code of the remote insufficient-entropy status.
pub const SERVICE_INSUFFICIENT_ENTROPY: u16 = 1148;
/// Wire code of the remote invalid-signature status.
pub const SERVICE_INVALID_SIGNATURE: u16 = 1149;
/// Wire code of the remote invalid-padding status.
pub const SERVICE_INVALID_PADDING: u16 = 1150;

/// A remote call's outcome as the translator sees it: the service
/// answered (carrying its wire status code), or the failure arose on the
/// client or transport side before any service answer was available —
/// with the client library's own not-found report told apart, since the
/// existence check turns on it.
#[derive(Clone, Copy, Debug, PartialEq, Eq, Structural)]
pub enum RemoteOutcome {
    /// The service answered with the given wire status code.
    Service(u16),
    /// The client library reported that the named resource is not stored.
    ClientNotFound,
    /// Any other client-side or transport-level failure.
    ClientOther,
}

/// The translation table: which host code each service wire code maps to.
/// Every code outside the table collapses to the generic error.
pub open spec fn spec_service_to_psa(code: u16) -> i32 {
    if code == SERVICE_SUCCESS {
        PSA_SUCCESS
    } else if code == SERVICE_GENERIC_ERROR {
        PSA_ERROR_GENERIC_ERROR
    } else if code == SERVICE_NOT_SUPPORTED {
        PSA_ERROR_NOT_SUPPORTED
    } else if code == SERVICE_NOT_PERMITTED {
        PSA_ERROR_NOT_PERMITTED
    } else if code == SERVICE_BUFFER_TOO_SMALL {
        PSA_ERROR_BUFFER_TOO_SMALL
    } else if code == SERVICE_ALREADY_EXISTS {
        PSA_ERROR_ALREADY_EXISTS
    } else if code == SERVICE_DOES_NOT_EXIST {
        PSA_ERROR_DOES_NOT_EXIST
    } else if code == SERVICE_BAD_STATE {
        PSA_ERROR_BAD_STATE
    } else if code == SERVICE_INVALID_ARGUMENT {
        PSA_ERROR_INVALID_ARGUMENT
    } else if code == SERVICE_INSUFFICIENT_MEMORY {
        PSA_ERROR_INSUFFICIENT_MEMORY
    } else if code == SERVICE_INSUFFICIENT_STORAGE {
        PSA_ERROR_INSUFFICIENT_STORAGE
    } else if code == SERVICE_COMMUNICATION_FAILURE {
        PSA_ERROR_COMMUNICATION_FAILURE
    } else if code == SERVICE_STORAGE_FAILURE {
        PSA_ERROR_STORAGE_FAILURE
    } else if code == SERVICE_HARDWARE_FAILURE {
        PSA_ERROR_HARDWARE_FAILURE
    } else if code == SERVICE_INSUFFICIENT_ENTROPY {
        PSA_ERROR_INSUFFICIENT_ENTROPY
    } else if code == SERVICE_INVALID_SIGNATURE {
        PSA_ERROR_INVALID_SIGNATURE
    } else if code == SERVICE_INVALID_PADDING {
        PSA_ERROR_INVALID_PADDING
    } else if code == SERVICE_INSUFFICIENT_DATA {
        PSA_ERROR_INSUFFICIENT_DATA
    } else if code == SERVICE_INVALID_HANDLE {
        PSA_ERROR_INVALID_HANDLE
    } else {
        PSA_ERROR_GENERIC_ERROR
    }
}

/// Whether a service wire code has a row of its own in the translation table.
pub open spec fn spec_known_service_code(code: u16) -> bool {
    ||| code == SERVICE_SUCCESS
    ||| code == SERVICE_GENERIC_ERROR
    ||| code == SERVICE_NOT_SUPPORTED
    ||| code == SERVICE_NOT_PERMITTED
    ||| code == SERVICE_BUFFER_TOO_SMALL
    ||| code == SERVICE_ALREADY_EXISTS
    ||| code == SERVICE_DOES_NOT_EXIST
    ||| code == SERVICE_BAD_STATE
    ||| code == SERVICE_INVALID_ARGUMENT
    ||| code == SERVICE_INSUFFICIENT_MEMORY
    ||| code == SERVICE_INSUFFICIENT_STORAGE
    ||| code == SERVICE_COMMUNICATION_FAILURE
    ||| code == SERVICE_STORAGE_FAILURE
    ||| code == SERVICE_HARDWARE_FAILURE
    ||| code == SERVICE_INSUFFICIENT_ENTROPY
    ||| code == SERVICE_INVALID_SIGNATURE
    ||| code == SERVICE_INVALID_PADDING
    ||| code == SERVICE_INSUFFICIENT_DATA
    ||| code == SERVICE_INVALID_HANDLE
}

/// What any outcome translates to: a service answer goes through the
/// table, every client-side failure — the not-found report included —
/// collapses to the generic error.
pub open spec fn spec_outcome_to_psa(outcome: RemoteOutcome) -> i32 {
    match outcome {
        RemoteOutcome::Service(code) => spec_service_to_psa(code),
        RemoteOutcome::ClientNotFound => PSA_ERROR_GENERIC_ERROR,
        RemoteOutcome::ClientOther => PSA_ERROR_GENERIC_ERROR,
    }
}

/// Whether an outcome has a row of its own in the translation table; one
/// without a row collapses to the generic error, and a diagnostic is
/// recorded for it since information is otherwise lost.
pub open spec fn spec_outcome_in_table(outcome: RemoteOutcome) -> bool {
    match outcome {
        RemoteOutcome::Service(code) => spec_known_service_code(code),
        RemoteOutcome::ClientNotFound => false,
        RemoteOutcome::ClientOther => false,
    }
}

/// What the key-existence check's outcome translates to: the client
/// library reports an absent key as its own not-found error, which the
/// host must see as the does-not-exist status; everything else
/// translates as usual.
pub open spec fn spec_existence_to_psa(outcome: RemoteOutcome) -> i32 {
    match outcome {
        RemoteOutcome::ClientNotFound => PSA_ERROR_DOES_NOT_EXIST,
        _ => spec_outcome_to_psa(outcome),
    }
}

/// Whether a value is one of the host status codes this driver ever returns.
pub open spec fn spec_in_host_status_space(status: i32) -> bool {
    ||| status == PSA_SUCCESS
    ||| status == PSA_ERROR_GENERIC_ERROR
    ||| status == PSA_ERROR_NOT_PERMITTED
    ||| status == PSA_ERROR_NOT_SUPPORTED
    ||| status == PSA_ERROR_INVALID_ARGUMENT
    ||| status == PSA_ERROR_INVALID_HANDLE
    ||| status == PSA_ERROR_BAD_STATE
    ||| status == PSA_ERROR_BUFFER_TOO_SMALL
    ||| status == PSA_ERROR_ALREADY_EXISTS
    ||| status == PSA_ERROR_DOES_NOT_EXIST
    ||| status == PSA_ERROR_INSUFFICIENT_MEMORY
    ||| status == PSA_ERROR_INSUFFICIENT_STORAGE
    ||| status == PSA_ERROR_INSUFFICIENT_DATA
    ||| status == PSA_ERROR_COMMUNICATION_FAILURE
    ||| status == PSA_ERROR_STORAGE_FAILURE
    ||| status == PSA_ERROR_HARDWARE_FAILURE
    ||| status == PSA_ERROR_INSUFFICIENT_ENTROPY
    ||| status == PSA_ERROR_INVALID_SIGNATURE
    ||| status == PSA_ERROR_INVALID_PADDING
}

/// Translate one service wire code into the host's status space,
/// row for row as the table states it.
pub fn translate_service_status(code: u16) -> (status: i32)
    ensures
        status == spec_service_to_psa(code),
{
    if code == SERVICE_SUCCESS {
        PSA_SUCCESS
    } else if code == SERVICE_GENERIC_ERROR {
        PSA_ERROR_GENERIC_ERROR
    } else if code == SERVICE_NOT_SUPPORTED {
        PSA_ERROR_NOT_SUPPORTED
    } else if code == SERVICE_NOT_PERMITTED {
        PSA_ERROR_NOT_PERMITTED
    } else if code == SERVICE_BUFFER_TOO_SMALL {
        PSA_ERROR_BUFFER_TOO_SMALL
    } else if code == SERVICE_ALREADY_EXISTS {
        PSA_ERROR_ALREADY_EXISTS
    } else if code == SERVICE_DOES_NOT_EXIST {
        PSA_ERROR_DOES_NOT_EXIST
    } else if code == SERVICE_BAD_STATE {
        PSA_ERROR_BAD_STATE
    } else if code == SERVICE_INVALID_ARGUMENT {
        PSA_ERROR_INVALID_ARGUMENT
    } else if code == SERVICE_INSUFFICIENT_MEMORY {
        PSA_ERROR_INSUFFICIENT_MEMORY
    } else if code == SERVICE_INSUFFICIENT_STORAGE {
        PSA_ERROR_INSUFFICIENT_STORAGE
    } else if code == SERVICE_COMMUNICATION_FAILURE {
        PSA_ERROR_COMMUNICATION_FAILURE
    } else if code == SERVICE_STORAGE_FAILURE {
        PSA_ERROR_STORAGE_FAILURE
    } else if code == SERVICE_HARDWARE_FAILURE {
        PSA_ERROR_HARDWARE_FAILURE
    } else if code == SERVICE_INSUFFICIENT_ENTROPY {
        PSA_ERROR_INSUFFICIENT_ENTROPY
    } else if code == SERVICE_INVALID_SIGNATURE {
        PSA_ERROR_INVALID_SIGNATURE
    } else if code == SERVICE_INVALID_PADDING {
        PSA_ERROR_INVALID_PADDING
    } else if code == SERVICE_INSUFFICIENT_DATA {
        PSA_ERROR_INSUFFICIENT_DATA
    } else if code == SERVICE_INVALID_HANDLE {
        PSA_ERROR_INVALID_HANDLE
    } else {
        PSA_ERROR_GENERIC_ERROR
    }
}

/// Translate a whole remote outcome into the host's status space.
pub fn translate_outcome(outcome: RemoteOutcome) -> (status: i32)
    ensures
        status == spec_outcome_to_psa(outcome),
{
    match outcome {
        RemoteOutcome::Service(code) => translate_service_status(code),
        RemoteOutcome::ClientNotFound => PSA_ERROR_GENERIC_ERROR,
        RemoteOutcome::ClientOther => PSA_ERROR_GENERIC_ERROR,
    }
}

/// Translate the key-existence check's outcome into the host's status
/// space: the client library's not-found report becomes the
/// does-not-exist status, everything else goes the usual way.
pub fn translate_existence_outcome(outcome: RemoteOutcome) -> (status: i32)
    ensures
        status == spec_existence_to_psa(outcome),
{
    match outcome {
        RemoteOutcome::ClientNotFound => PSA_ERROR_DOES_NOT_EXIST,
        _ => translate_outcome(outcome),
    }
}

/// Whether an outcome has a row of its own in the translation table.
pub fn outcome_in_table(outcome: RemoteOutcome) -> (r: bool)
    ensures
        r == spec_outcome_in_table(outcome),
{
    match outcome {
        RemoteOutcome::Service(code) => {
            code == SERVICE_SUCCESS || code == SERVICE_GENERIC_ERROR || code
                == SERVICE_NOT_SUPPORTED || code == SERVICE_NOT_PERMITTED || code
                == SERVICE_BUFFER_TOO_SMALL || code == SERVICE_ALREADY_EXISTS || code
                == SERVICE_DOES_NOT_EXIST || code == SERVICE_BAD_STATE || code
                == SERVICE_INVALID_ARGUMENT || code == SERVICE_INSUFFICIENT_MEMORY || code
                == SERVICE_INSUFFICIENT_STORAGE || code == SERVICE_COMMUNICATION_FAILURE || code
                == SERVICE_STORAGE_FAILURE || code == SERVICE_HARDWARE_FAILURE || code
                == SERVICE_INSUFFICIENT_ENTROPY || code == SERVICE_INVALID_SIGNATURE || code
                == SERVICE_INVALID_PADDING || code == SERVICE_INSUFFICIENT_DATA || code
                == SERVICE_INVALID_HANDLE
        },
        RemoteOutcome::ClientNotFound => false,
        RemoteOutcome::ClientOther => false,
    }
}

/// Any outcome outside the translation table collapses to the generic
/// error, which is never the success code: an unrecognized or
/// transport-level failure can never be misread as a successful call.
pub proof fn lemma_untranslatable_outcome_is_generic(outcome: RemoteOutcome)
    requires
        !spec_outcome_in_table(outcome),
    ensures
        spec_outcome_to_psa(outcome) == PSA_ERROR_GENERIC_ERROR,
        spec_outcome_to_psa(outcome) != PSA_SUCCESS,
{
}

/// Every translation lands inside the host's fixed status space, the
/// existence check's included.
pub proof fn lemma_translation_in_host_space(outcome: RemoteOutcome)
    ensures
        spec_in_host_status_space(spec_outcome_to_psa(outcome)),
        spec_in_host_status_space(spec_existence_to_psa(outcome)),
{
}

/// A failed cryptographic check keeps its identity through translation:
/// the service's invalid-signature answer becomes the host's
/// invalid-signature status, distinct from the generic error and from
/// success, so callers can branch on it.
pub proof fn lemma_invalid_signature_stays_distinct()
    ensures
        spec_outcome_to_psa(RemoteOutcome::Service(SERVICE_INVALID_SIGNATURE))
            == PSA_ERROR_INVALID_SIGNATURE,
        PSA_ERROR_INVALID_SIGNATURE != PSA_ERROR_GENERIC_ERROR,
        PSA_ERROR_INVALID_SIGNATURE != PSA_SUCCESS,
{
}

} // verus!
