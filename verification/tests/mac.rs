//! Tests that drive the MAC operations the way the host code does: each
//! operation's request step, then the provider's status fed into its
//! completion step.

use psa_mac::mac::{
    compute_mac_begin, compute_mac_end, mac_sign_finish_begin, mac_sign_finish_end,
    mac_sign_setup_begin, mac_sign_setup_end, mac_update_begin, mac_update_end, verify_mac_begin,
    verify_mac_end,
};
use psa_mac::operation::{MacOperation, Operation, SessionState};
use psa_mac::status::{
    status_to_result, Error, PSA_ERROR_BAD_STATE, PSA_ERROR_BUFFER_TOO_SMALL,
    PSA_ERROR_CORRUPTION_DETECTED, PSA_ERROR_INVALID_ARGUMENT, PSA_ERROR_INVALID_HANDLE,
    PSA_ERROR_INVALID_SIGNATURE, PSA_ERROR_NOT_PERMITTED, PSA_ERROR_NOT_SUPPORTED, PSA_SUCCESS,
};
use psa_mac::types::{Id, Mac};

/// HMAC-SHA-256 in the provider's encoding.
const HMAC_SHA256: Mac = Mac(0x0380_0009);
const KEY: Id = Id(7);

const MESSAGE: [u8; 32] = [
    0x69, 0x3E, 0xDB, 0x1B, 0x22, 0x79, 0x03, 0xF4, 0xC0, 0xBF, 0xD6, 0x91, 0x76, 0x37, 0x84,
    0xA2, 0x94, 0x8E, 0x92, 0x50, 0x35, 0xC2, 0x8C, 0x5C, 0x3C, 0xCA, 0xFE, 0x18, 0xE8, 0x81,
    0x37, 0x78,
];

/// Drive one full successful session over `chunks`, with a finish that reports
/// `mac_len` bytes into a buffer of `capacity`.
fn run_session(chunks: &[&[u8]], mac_len: usize, capacity: usize) -> (Result<usize, Error>, SessionState) {
    let mut op = MacOperation::default();
    assert_eq!(mac_sign_setup_begin(&mut op, KEY, HMAC_SHA256, true), Ok(()));
    assert_eq!(mac_sign_setup_end(&mut op, PSA_SUCCESS), Ok(()));
    for chunk in chunks {
        assert_eq!(mac_update_begin(&mut op, chunk, true), Ok(()));
        assert_eq!(mac_update_end(&mut op, PSA_SUCCESS), Ok(()));
    }
    assert_eq!(mac_sign_finish_begin(&mut op, true), Ok(()));
    let r = mac_sign_finish_end(&mut op, PSA_SUCCESS, mac_len, capacity);
    let s = op.state();
    (r, s)
}

#[test]
fn status_success_is_ok() {
    assert_eq!(status_to_result(PSA_SUCCESS), Ok(()));
}

#[test]
fn status_invalid_handle() {
    assert_eq!(status_to_result(PSA_ERROR_INVALID_HANDLE), Err(Error::InvalidHandle));
}

#[test]
fn status_algorithm_errors() {
    assert_eq!(status_to_result(PSA_ERROR_NOT_PERMITTED), Err(Error::InvalidAlgorithm));
    assert_eq!(status_to_result(PSA_ERROR_NOT_SUPPORTED), Err(Error::InvalidAlgorithm));
    assert_eq!(status_to_result(PSA_ERROR_INVALID_ARGUMENT), Err(Error::InvalidAlgorithm));
}

#[test]
fn status_buffer_too_small() {
    assert_eq!(status_to_result(PSA_ERROR_BUFFER_TOO_SMALL), Err(Error::BufferTooSmall));
}

#[test]
fn status_invalid_signature() {
    assert_eq!(status_to_result(PSA_ERROR_INVALID_SIGNATURE), Err(Error::AuthenticationFailure));
}

#[test]
fn status_bad_state() {
    assert_eq!(status_to_result(PSA_ERROR_BAD_STATE), Err(Error::InvalidState));
}

#[test]
fn status_other_is_provider_fault() {
    assert_eq!(status_to_result(-132), Err(Error::ProviderFault(-132)));
    assert_eq!(status_to_result(-141), Err(Error::ProviderFault(-141)));
}

#[test]
fn uninitialized_rejects_every_operation() {
    assert_eq!(
        compute_mac_begin(false, KEY, HMAC_SHA256, &MESSAGE).map(|_| ()),
        Err(Error::NotInitialized)
    );
    assert_eq!(
        verify_mac_begin(false, KEY, HMAC_SHA256, &MESSAGE, &[0u8; 32]).map(|_| ()),
        Err(Error::NotInitialized)
    );
    let mut op = MacOperation::default();
    assert_eq!(
        mac_sign_setup_begin(&mut op, KEY, HMAC_SHA256, false),
        Err(Error::NotInitialized)
    );
    assert_eq!(mac_update_begin(&mut op, &MESSAGE, false), Err(Error::NotInitialized));
    assert_eq!(mac_sign_finish_begin(&mut op, false), Err(Error::NotInitialized));
    // The rejected session is untouched and still usable once initialized.
    assert_eq!(op.state(), SessionState::Inert);
    assert_eq!(mac_sign_setup_begin(&mut op, KEY, HMAC_SHA256, true), Ok(()));
}

#[test]
fn compute_request_carries_key_algorithm() {
    let req = compute_mac_begin(true, KEY, HMAC_SHA256, &MESSAGE).unwrap();
    assert_eq!(req.key, KEY);
    assert_eq!(req.alg, HMAC_SHA256);
}

#[test]
fn compute_buffer_boundaries() {
    // A buffer of exactly the algorithm's length: the provider succeeds and
    // the reported length comes back.
    assert_eq!(compute_mac_end(PSA_SUCCESS, 32, 32), Ok(32));
    // One byte short: the provider reports a too-small buffer.
    assert_eq!(
        compute_mac_end(PSA_ERROR_BUFFER_TOO_SMALL, 0, 31),
        Err(Error::BufferTooSmall)
    );
    // The returned length never exceeds the buffer: a longer claim is refused.
    assert_eq!(
        compute_mac_end(PSA_SUCCESS, 33, 32),
        Err(Error::ProviderFault(PSA_ERROR_CORRUPTION_DETECTED))
    );
    // A truncated-MAC algorithm may report less than the capacity.
    assert_eq!(compute_mac_end(PSA_SUCCESS, 16, 32), Ok(16));
}

#[test]
fn compute_surfaces_provider_errors() {
    assert_eq!(
        compute_mac_end(PSA_ERROR_INVALID_HANDLE, 0, 32),
        Err(Error::InvalidHandle)
    );
    assert_eq!(
        compute_mac_end(PSA_ERROR_NOT_PERMITTED, 0, 32),
        Err(Error::InvalidAlgorithm)
    );
}

#[test]
fn verify_matches_and_mismatches() {
    let req = verify_mac_begin(true, KEY, HMAC_SHA256, &MESSAGE, &[0u8; 32]).unwrap();
    assert_eq!(req.key, KEY);
    assert_eq!(req.alg, HMAC_SHA256);
    assert_eq!(verify_mac_end(PSA_SUCCESS), Ok(()));
    assert_eq!(
        verify_mac_end(PSA_ERROR_INVALID_SIGNATURE),
        Err(Error::AuthenticationFailure)
    );
    assert_eq!(verify_mac_end(PSA_ERROR_INVALID_HANDLE), Err(Error::InvalidHandle));
}

#[test]
fn update_and_finish_need_setup() {
    let mut op = MacOperation::default();
    assert_eq!(mac_update_begin(&mut op, &MESSAGE, true), Err(Error::InvalidState));
    assert_eq!(mac_sign_finish_begin(&mut op, true), Err(Error::InvalidState));
    assert_eq!(op.state(), SessionState::Inert);
}

#[test]
fn completion_needs_authorization() {
    // A provider status may only be folded in after the matching request step.
    let mut op = MacOperation::default();
    assert_eq!(mac_sign_setup_end(&mut op, PSA_SUCCESS), Err(Error::InvalidState));
    assert_eq!(mac_update_end(&mut op, PSA_SUCCESS), Err(Error::InvalidState));
    assert_eq!(
        mac_sign_finish_end(&mut op, PSA_SUCCESS, 32, 32),
        Err(Error::InvalidState)
    );
    assert_eq!(op.state(), SessionState::Inert);
}

#[test]
fn setup_twice_is_rejected() {
    let mut op = MacOperation::default();
    assert_eq!(mac_sign_setup_begin(&mut op, KEY, HMAC_SHA256, true), Ok(()));
    assert_eq!(mac_sign_setup_end(&mut op, PSA_SUCCESS), Ok(()));
    assert_eq!(op.state(), SessionState::Active);
    assert_eq!(
        mac_sign_setup_begin(&mut op, KEY, HMAC_SHA256, true),
        Err(Error::InvalidState)
    );
}

#[test]
fn finish_twice_is_rejected() {
    let (r, state) = run_session(&[&MESSAGE], 32, 32);
    assert_eq!(r, Ok(32));
    assert_eq!(state, SessionState::Finished);

    let mut op = MacOperation::default();
    assert_eq!(mac_sign_setup_begin(&mut op, KEY, HMAC_SHA256, true), Ok(()));
    assert_eq!(mac_sign_setup_end(&mut op, PSA_SUCCESS), Ok(()));
    assert_eq!(mac_sign_finish_begin(&mut op, true), Ok(()));
    assert_eq!(mac_sign_finish_end(&mut op, PSA_SUCCESS, 32, 32), Ok(32));
    assert_eq!(mac_sign_finish_begin(&mut op, true), Err(Error::InvalidState));
    assert_eq!(
        mac_sign_finish_end(&mut op, PSA_SUCCESS, 32, 32),
        Err(Error::InvalidState)
    );
}

#[test]
fn failed_finish_is_still_terminal() {
    let mut op = MacOperation::default();
    assert_eq!(mac_sign_setup_begin(&mut op, KEY, HMAC_SHA256, true), Ok(()));
    assert_eq!(mac_sign_setup_end(&mut op, PSA_SUCCESS), Ok(()));
    assert_eq!(mac_sign_finish_begin(&mut op, true), Ok(()));
    assert_eq!(
        mac_sign_finish_end(&mut op, PSA_ERROR_BUFFER_TOO_SMALL, 0, 16),
        Err(Error::BufferTooSmall)
    );
    assert_eq!(op.state(), SessionState::Finished);
    assert_eq!(mac_sign_finish_begin(&mut op, true), Err(Error::InvalidState));
}

#[test]
fn failed_setup_needs_rezeroing() {
    let mut op = MacOperation::default();
    assert_eq!(mac_sign_setup_begin(&mut op, KEY, HMAC_SHA256, true), Ok(()));
    assert_eq!(
        mac_sign_setup_end(&mut op, PSA_ERROR_NOT_PERMITTED),
        Err(Error::InvalidAlgorithm)
    );
    assert_eq!(op.state(), SessionState::Unusable);
    assert_eq!(mac_update_begin(&mut op, &MESSAGE, true), Err(Error::InvalidState));
    assert_eq!(
        mac_sign_setup_begin(&mut op, KEY, HMAC_SHA256, true),
        Err(Error::InvalidState)
    );
    op.reset();
    assert_eq!(op.state(), SessionState::Inert);
    assert_eq!(mac_sign_setup_begin(&mut op, KEY, HMAC_SHA256, true), Ok(()));
}

#[test]
fn failed_update_invalidates_session() {
    let mut op = MacOperation::default();
    assert_eq!(mac_sign_setup_begin(&mut op, KEY, HMAC_SHA256, true), Ok(()));
    assert_eq!(mac_sign_setup_end(&mut op, PSA_SUCCESS), Ok(()));
    assert_eq!(mac_update_begin(&mut op, &MESSAGE, true), Ok(()));
    assert_eq!(mac_update_end(&mut op, -132), Err(Error::ProviderFault(-132)));
    assert_eq!(op.state(), SessionState::Unusable);
    assert_eq!(mac_update_begin(&mut op, &MESSAGE, true), Err(Error::InvalidState));
    assert_eq!(mac_sign_finish_begin(&mut op, true), Err(Error::InvalidState));
}

#[test]
fn chunked_session_behaves_like_whole() {
    // The same message as one chunk, as two 16-byte chunks, and with an empty
    // chunk interleaved: each run takes the identical transition sequence and
    // returns the identical finish result.
    let whole = run_session(&[&MESSAGE], 32, 32);
    let halves = run_session(&[&MESSAGE[..16], &MESSAGE[16..]], 32, 32);
    let with_empty = run_session(&[&MESSAGE[..16], &[], &MESSAGE[16..]], 32, 32);
    assert_eq!(whole, (Ok(32), SessionState::Finished));
    assert_eq!(halves, whole);
    assert_eq!(with_empty, whole);
}

#[test]
fn zero_updates_is_allowed() {
    let (r, state) = run_session(&[], 32, 32);
    assert_eq!(r, Ok(32));
    assert_eq!(state, SessionState::Finished);
}

#[test]
fn default_session_is_inert() {
    let op = MacOperation::default();
    assert_eq!(op.state(), SessionState::Inert);
    assert!(matches!(Operation::MacOperation, Operation::MacOperation));
}
