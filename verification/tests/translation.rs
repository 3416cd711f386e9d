//! The status translation table, pair by pair, against the real remote
//! client's error type and the host's published status constants.

use parsec_client::error::ClientErrorKind;
use parsec_client::error::Error;
use parsec_interface::requests::ResponseStatus;
use parsec_se_driver::client::client_error_to_existence_status;
use parsec_se_driver::client::client_error_to_psa_status;
use parsec_se_driver::status::translate_existence_outcome;
use parsec_se_driver::status::translate_outcome;
use parsec_se_driver::status::translate_service_status;
use parsec_se_driver::status;
use parsec_se_driver::status::RemoteOutcome;

#[test]
fn service_success_translates_to_success() {
    assert_eq!(client_error_to_psa_status(&Error::Service(ResponseStatus::Success)), 0);
}

#[test]
fn generic_error_translates() {
    assert_eq!(
        client_error_to_psa_status(&Error::Service(ResponseStatus::PsaErrorGenericError)),
        -132
    );
}

#[test]
fn not_supported_translates() {
    assert_eq!(
        client_error_to_psa_status(&Error::Service(ResponseStatus::PsaErrorNotSupported)),
        -134
    );
}

#[test]
fn not_permitted_translates() {
    assert_eq!(
        client_error_to_psa_status(&Error::Service(ResponseStatus::PsaErrorNotPermitted)),
        -133
    );
}

#[test]
fn buffer_too_small_translates() {
    assert_eq!(
        client_error_to_psa_status(&Error::Service(ResponseStatus::PsaErrorBufferTooSmall)),
        -138
    );
}

#[test]
fn already_exists_translates() {
    assert_eq!(
        client_error_to_psa_status(&Error::Service(ResponseStatus::PsaErrorAlreadyExists)),
        -139
    );
}

#[test]
fn does_not_exist_translates() {
    assert_eq!(
        client_error_to_psa_status(&Error::Service(ResponseStatus::PsaErrorDoesNotExist)),
        -140
    );
}

#[test]
fn bad_state_translates() {
    assert_eq!(
        client_error_to_psa_status(&Error::Service(ResponseStatus::PsaErrorBadState)),
        -137
    );
}

#[test]
fn invalid_argument_translates() {
    assert_eq!(
        client_error_to_psa_status(&Error::Service(ResponseStatus::PsaErrorInvalidArgument)),
        -135
    );
}

#[test]
fn insufficient_memory_translates() {
    assert_eq!(
        client_error_to_psa_status(&Error::Service(ResponseStatus::PsaErrorInsufficientMemory)),
        -141
    );
}

#[test]
fn insufficient_storage_translates() {
    assert_eq!(
        client_error_to_psa_status(&Error::Service(ResponseStatus::PsaErrorInsufficientStorage)),
        -142
    );
}

#[test]
fn communication_failure_translates() {
    assert_eq!(
        client_error_to_psa_status(&Error::Service(ResponseStatus::PsaErrorCommunicationFailure)),
        -145
    );
}

#[test]
fn storage_failure_translates() {
    assert_eq!(
        client_error_to_psa_status(&Error::Service(ResponseStatus::PsaErrorStorageFailure)),
        -146
    );
}

#[test]
fn hardware_failure_translates() {
    assert_eq!(
        client_error_to_psa_status(&Error::Service(ResponseStatus::PsaErrorHardwareFailure)),
        -147
    );
}

#[test]
fn insufficient_entropy_translates() {
    assert_eq!(
        client_error_to_psa_status(&Error::Service(ResponseStatus::PsaErrorInsufficientEntropy)),
        -148
    );
}

#[test]
fn invalid_signature_translates() {
    assert_eq!(
        client_error_to_psa_status(&Error::Service(ResponseStatus::PsaErrorInvalidSignature)),
        -149
    );
}

#[test]
fn invalid_padding_translates() {
    assert_eq!(
        client_error_to_psa_status(&Error::Service(ResponseStatus::PsaErrorInvalidPadding)),
        -150
    );
}

#[test]
fn insufficient_data_translates() {
    assert_eq!(
        client_error_to_psa_status(&Error::Service(ResponseStatus::PsaErrorInsufficientData)),
        -143
    );
}

#[test]
fn invalid_handle_translates() {
    assert_eq!(
        client_error_to_psa_status(&Error::Service(ResponseStatus::PsaErrorInvalidHandle)),
        -136
    );
}

#[test]
fn tampered_signature_is_invalid_signature_not_generic() {
    let status =
        client_error_to_psa_status(&Error::Service(ResponseStatus::PsaErrorInvalidSignature));
    assert_eq!(status, -149);
    assert_ne!(status, -132);
    assert_ne!(status, 0);
}

#[test]
fn unlisted_service_codes_collapse_to_generic_error() {
    for status in [
        ResponseStatus::WrongProviderId,
        ResponseStatus::ContentTypeNotSupported,
        ResponseStatus::DeserializingBodyFailed,
        ResponseStatus::OpcodeDoesNotExist,
        ResponseStatus::AuthenticationError,
        ResponseStatus::KeyInfoManagerError,
        ResponseStatus::ConnectionError,
        ResponseStatus::InvalidEncoding,
        ResponseStatus::PsaErrorDataCorrupt,
        ResponseStatus::PsaErrorDataInvalid,
        ResponseStatus::PsaErrorCorruptionDetected,
    ] {
        let translated = client_error_to_psa_status(&Error::Service(status));
        assert_eq!(translated, -132);
        assert_ne!(translated, 0);
    }
}

#[test]
fn client_side_errors_collapse_to_generic_error() {
    for error in [
        Error::Client(ClientErrorKind::NoProvider),
        Error::Client(ClientErrorKind::InvalidProvider),
        Error::Client(ClientErrorKind::NoAuthenticator),
        Error::Client(ClientErrorKind::MissingParam),
        Error::Client(ClientErrorKind::InvalidServiceResponseType),
    ] {
        let translated = client_error_to_psa_status(&error);
        assert_eq!(translated, -132);
        assert_ne!(translated, 0);
    }
}

#[test]
fn every_unknown_wire_code_is_generic_never_success() {
    for code in 0u16..2000u16 {
        let translated = translate_service_status(code);
        if code == 0 {
            assert_eq!(translated, 0);
        } else {
            assert_ne!(translated, 0);
        }
        let known = matches!(
            code,
            0 | 1132..=1143 | 1145..=1150
        );
        if !known {
            assert_eq!(translated, -132);
        }
    }
}

#[test]
fn client_outcomes_are_generic() {
    assert_eq!(translate_outcome(RemoteOutcome::ClientOther), -132);
    assert_eq!(translate_outcome(RemoteOutcome::ClientNotFound), -132);
}

#[test]
fn existence_check_reports_an_absent_key_as_does_not_exist() {
    assert_eq!(client_error_to_existence_status(&Error::Client(ClientErrorKind::NotFound)), -140);
    assert_eq!(
        client_error_to_existence_status(&Error::Service(ResponseStatus::PsaErrorDoesNotExist)),
        -140
    );
}

#[test]
fn existence_check_translates_other_errors_as_usual() {
    assert_eq!(client_error_to_existence_status(&Error::Client(ClientErrorKind::NoProvider)), -132);
    assert_eq!(
        client_error_to_existence_status(
            &Error::Service(ResponseStatus::PsaErrorCommunicationFailure)
        ),
        -145
    );
    assert_eq!(client_error_to_existence_status(&Error::Service(ResponseStatus::Success)), 0);
}

#[test]
fn existence_translation_over_outcomes() {
    assert_eq!(translate_existence_outcome(RemoteOutcome::ClientNotFound), -140);
    assert_eq!(translate_existence_outcome(RemoteOutcome::ClientOther), -132);
    assert_eq!(translate_existence_outcome(RemoteOutcome::Service(1140)), -140);
    assert_eq!(translate_existence_outcome(RemoteOutcome::Service(7)), -132);
}

#[test]
fn library_status_constants_match_psa_constants() {
    assert_eq!(parsec_se_driver::status::PSA_SUCCESS, psa_crypto::ffi::PSA_SUCCESS);
    assert_eq!(
        parsec_se_driver::status::PSA_ERROR_GENERIC_ERROR,
        psa_crypto::ffi::PSA_ERROR_GENERIC_ERROR
    );
    assert_eq!(
        parsec_se_driver::status::PSA_ERROR_NOT_PERMITTED,
        psa_crypto::ffi::PSA_ERROR_NOT_PERMITTED
    );
    assert_eq!(
        parsec_se_driver::status::PSA_ERROR_NOT_SUPPORTED,
        psa_crypto::ffi::PSA_ERROR_NOT_SUPPORTED
    );
    assert_eq!(
        parsec_se_driver::status::PSA_ERROR_INVALID_ARGUMENT,
        psa_crypto::ffi::PSA_ERROR_INVALID_ARGUMENT
    );
    assert_eq!(
        parsec_se_driver::status::PSA_ERROR_INVALID_HANDLE,
        psa_crypto::ffi::PSA_ERROR_INVALID_HANDLE
    );
    assert_eq!(
        parsec_se_driver::status::PSA_ERROR_BAD_STATE,
        psa_crypto::ffi::PSA_ERROR_BAD_STATE
    );
    assert_eq!(
        parsec_se_driver::status::PSA_ERROR_BUFFER_TOO_SMALL,
        psa_crypto::ffi::PSA_ERROR_BUFFER_TOO_SMALL
    );
    assert_eq!(
        parsec_se_driver::status::PSA_ERROR_ALREADY_EXISTS,
        psa_crypto::ffi::PSA_ERROR_ALREADY_EXISTS
    );
    assert_eq!(
        parsec_se_driver::status::PSA_ERROR_DOES_NOT_EXIST,
        psa_crypto::ffi::PSA_ERROR_DOES_NOT_EXIST
    );
    assert_eq!(
        parsec_se_driver::status::PSA_ERROR_INSUFFICIENT_MEMORY,
        psa_crypto::ffi::PSA_ERROR_INSUFFICIENT_MEMORY
    );
    assert_eq!(
        parsec_se_driver::status::PSA_ERROR_INSUFFICIENT_STORAGE,
        psa_crypto::ffi::PSA_ERROR_INSUFFICIENT_STORAGE
    );
    assert_eq!(
        parsec_se_driver::status::PSA_ERROR_INSUFFICIENT_DATA,
        psa_crypto::ffi::PSA_ERROR_INSUFFICIENT_DATA
    );
    assert_eq!(
        parsec_se_driver::status::PSA_ERROR_COMMUNICATION_FAILURE,
        psa_crypto::ffi::PSA_ERROR_COMMUNICATION_FAILURE
    );
    assert_eq!(
        parsec_se_driver::status::PSA_ERROR_STORAGE_FAILURE,
        psa_crypto::ffi::PSA_ERROR_STORAGE_FAILURE
    );
    assert_eq!(
        parsec_se_driver::status::PSA_ERROR_HARDWARE_FAILURE,
        psa_crypto::ffi::PSA_ERROR_HARDWARE_FAILURE
    );
    assert_eq!(
        parsec_se_driver::status::PSA_ERROR_INSUFFICIENT_ENTROPY,
        psa_crypto::ffi::PSA_ERROR_INSUFFICIENT_ENTROPY
    );
    assert_eq!(
        parsec_se_driver::status::PSA_ERROR_INVALID_SIGNATURE,
        psa_crypto::ffi::PSA_ERROR_INVALID_SIGNATURE
    );
    assert_eq!(
        parsec_se_driver::status::PSA_ERROR_INVALID_PADDING,
        psa_crypto::ffi::PSA_ERROR_INVALID_PADDING
    );
}

#[test]
fn library_wire_codes_match_response_status_discriminants() {
    assert_eq!(status::SERVICE_SUCCESS, ResponseStatus::Success as u16);
    assert_eq!(status::SERVICE_GENERIC_ERROR, ResponseStatus::PsaErrorGenericError as u16);
    assert_eq!(status::SERVICE_NOT_PERMITTED, ResponseStatus::PsaErrorNotPermitted as u16);
    assert_eq!(status::SERVICE_NOT_SUPPORTED, ResponseStatus::PsaErrorNotSupported as u16);
    assert_eq!(status::SERVICE_INVALID_ARGUMENT, ResponseStatus::PsaErrorInvalidArgument as u16);
    assert_eq!(status::SERVICE_INVALID_HANDLE, ResponseStatus::PsaErrorInvalidHandle as u16);
    assert_eq!(status::SERVICE_BAD_STATE, ResponseStatus::PsaErrorBadState as u16);
    assert_eq!(status::SERVICE_BUFFER_TOO_SMALL, ResponseStatus::PsaErrorBufferTooSmall as u16);
    assert_eq!(status::SERVICE_ALREADY_EXISTS, ResponseStatus::PsaErrorAlreadyExists as u16);
    assert_eq!(status::SERVICE_DOES_NOT_EXIST, ResponseStatus::PsaErrorDoesNotExist as u16);
    assert_eq!(
        status::SERVICE_INSUFFICIENT_MEMORY,
        ResponseStatus::PsaErrorInsufficientMemory as u16
    );
    assert_eq!(
        status::SERVICE_INSUFFICIENT_STORAGE,
        ResponseStatus::PsaErrorInsufficientStorage as u16
    );
    assert_eq!(
        status::SERVICE_INSUFFICIENT_DATA,
        ResponseStatus::PsaErrorInsufficientData as u16
    );
    assert_eq!(
        status::SERVICE_COMMUNICATION_FAILURE,
        ResponseStatus::PsaErrorCommunicationFailure as u16
    );
    assert_eq!(status::SERVICE_STORAGE_FAILURE, ResponseStatus::PsaErrorStorageFailure as u16);
    assert_eq!(status::SERVICE_HARDWARE_FAILURE, ResponseStatus::PsaErrorHardwareFailure as u16);
    assert_eq!(
        status::SERVICE_INSUFFICIENT_ENTROPY,
        ResponseStatus::PsaErrorInsufficientEntropy as u16
    );
    assert_eq!(status::SERVICE_INVALID_SIGNATURE, ResponseStatus::PsaErrorInvalidSignature as u16);
    assert_eq!(status::SERVICE_INVALID_PADDING, ResponseStatus::PsaErrorInvalidPadding as u16);
}
