//! Message-authentication-code operations: one-shot compute/verify and the
//! multi-part setup/update/finish protocol.
//!
//! Every operation maps to exactly one provider call, which only the
//! unverified host code can make. Each operation is therefore split in two
//! verified steps:
//!
//! - a request step (`*_begin`), which enforces the preconditions — the
//!   process-wide readiness flag and, for multi-part operations, the session's
//!   protocol state — and either rejects the operation with a typed error
//!   (in which case the host must make no provider call) or authorizes the one
//!   call and says exactly what is to be passed;
//! - a completion step (`*_end`), which folds the provider's reported status
//!   (and output length, where there is one) back into a typed result and, for
//!   multi-part operations, into the session's next state.
//!
//! The contracts pin down every transition of the session state machine: one
//! successful setup, any number of updates, one finish, and no reuse after a
//! failure or after finish without re-zeroing.

use vstd::prelude::*;

use crate::operation::{absorb, setup_ok_view, MacOperation, SessionState};
use crate::status::{
    spec_error_of_status, status_to_result, Error, PSA_ERROR_CORRUPTION_DETECTED,
    PSA_ERROR_INVALID_SIGNATURE, PSA_SUCCESS,
};
use crate::types::{Id, Mac};

verus! {

/// The single provider call a one-shot MAC computation is authorized to make:
/// exactly this key, this algorithm and these message bytes.
pub struct MacRequest {
    /// The key handle to pass to the provider.
    pub key: Id,
    /// The algorithm identifier to pass to the provider.
    pub alg: Mac,
    /// The message bytes the call must pass, exactly as the caller gave them.
    pub message: Ghost<Seq<u8>>,
}

/// Authorize a one-shot MAC computation: checks the process-wide readiness
/// flag first and, if it holds, hands back the exact provider request. If it
/// does not hold, the operation fails with `NotInitialized` and no provider
/// call may be made.
pub fn compute_mac_begin(env_initialized: bool, key_id: Id, mac_alg: Mac, input_message: &[u8])
    -> (r: Result<MacRequest, Error>)
    ensures
        !env_initialized ==> (r matches Err(e) && e == Error::NotInitialized),
        env_initialized ==> (r matches Ok(req) && req.key == key_id && req.alg == mac_alg
            && req.message@ == input_message@),
{
    if !env_initialized {
        Err(Error::NotInitialized)
    } else {
        Ok(MacRequest { key: key_id, alg: mac_alg, message: Ghost(input_message@) })
    }
}

/// Complete a one-shot MAC computation from the provider's reported status and
/// output length, for an output buffer of `mac_capacity` bytes. A non-success
/// status becomes the corresponding typed error; on success the reported
/// length is returned, except that a length over the buffer's capacity (which
/// a conforming provider never reports) is rejected as a provider fault, so
/// the returned length never exceeds the buffer.
pub fn compute_mac_end(status: i32, output_length: usize, mac_capacity: usize)
    -> (r: Result<usize, Error>)
    ensures
        status != PSA_SUCCESS ==> (r matches Err(e) && e == spec_error_of_status(status)),
        status == PSA_SUCCESS && output_length <= mac_capacity ==> r == Ok::<usize, Error>(
            output_length,
        ),
        status == PSA_SUCCESS && output_length > mac_capacity ==> (r matches Err(e) && e
            == Error::ProviderFault(PSA_ERROR_CORRUPTION_DETECTED)),
        (r matches Ok(n) && n <= mac_capacity) || r is Err,
{
    match status_to_result(status) {
        Err(e) => Err(e),
        Ok(()) => {
            if output_length <= mac_capacity {
                Ok(output_length)
            } else {
                Err(Error::ProviderFault(PSA_ERROR_CORRUPTION_DETECTED))
            }
        },
    }
}

/// The single provider call a one-shot MAC verification is authorized to
/// make: exactly this key, this algorithm, these message bytes and this
/// expected MAC, compared by the provider's own (constant-time) comparison.
pub struct VerifyRequest {
    /// The key handle to pass to the provider.
    pub key: Id,
    /// The algorithm identifier to pass to the provider.
    pub alg: Mac,
    /// The message bytes the call must pass, exactly as the caller gave them.
    pub message: Ghost<Seq<u8>>,
    /// The reference MAC the call must pass, exactly as the caller gave it.
    pub expected: Ghost<Seq<u8>>,
}

/// Authorize a one-shot MAC verification: checks the process-wide readiness
/// flag first and, if it holds, hands back the exact provider request. If it
/// does not hold, the operation fails with `NotInitialized` and no provider
/// call may be made.
pub fn verify_mac_begin(
    env_initialized: bool,
    key_id: Id,
    mac_alg: Mac,
    input_message: &[u8],
    expected_mac: &[u8],
) -> (r: Result<VerifyRequest, Error>)
    ensures
        !env_initialized ==> (r matches Err(e) && e == Error::NotInitialized),
        env_initialized ==> (r matches Ok(req) && req.key == key_id && req.alg == mac_alg
            && req.message@ == input_message@ && req.expected@ == expected_mac@),
{
    if !env_initialized {
        Err(Error::NotInitialized)
    } else {
        Ok(VerifyRequest {
            key: key_id,
            alg: mac_alg,
            message: Ghost(input_message@),
            expected: Ghost(expected_mac@),
        })
    }
}

/// Complete a one-shot MAC verification from the provider's reported status.
/// Success means the MACs matched; a mismatch is reported by the provider as
/// an invalid signature and surfaces as `AuthenticationFailure`, and exactly
/// that status does.
pub fn verify_mac_end(status: i32) -> (r: Result<(), Error>)
    ensures
        r is Ok <==> status == PSA_SUCCESS,
        status != PSA_SUCCESS ==> (r matches Err(e) && e == spec_error_of_status(status)),
        (r matches Err(e) && e == Error::AuthenticationFailure) <==> status
            == PSA_ERROR_INVALID_SIGNATURE,
{
    status_to_result(status)
}

/// Authorize a multi-part setup: the environment must be ready and the session
/// inert (never set up, or freshly re-zeroed); otherwise the request is
/// rejected and the session is left as it was, with no provider call allowed.
/// When authorized, the session binds to `key_id` and `mac_alg`, has absorbed
/// nothing, and awaits the provider's status for exactly one setup call.
pub fn mac_sign_setup_begin(
    operation: &mut MacOperation,
    key_id: Id,
    mac_alg: Mac,
    env_initialized: bool,
) -> (r: Result<(), Error>)
    requires
        old(operation)@.wf(),
    ensures
        final(operation)@.wf(),
        !env_initialized ==> (r matches Err(e) && e == Error::NotInitialized && final(operation)@
            == old(operation)@),
        env_initialized && old(operation)@.state != SessionState::Inert ==> (r matches Err(e) && e
            == Error::InvalidState && final(operation)@ == old(operation)@),
        env_initialized && old(operation)@.state == SessionState::Inert ==> {
            &&& r is Ok
            &&& final(operation)@.state == SessionState::SetupPending
            &&& final(operation)@.key == key_id
            &&& final(operation)@.alg == mac_alg
            &&& final(operation)@.fed == Seq::<u8>::empty()
            &&& final(operation)@.pending == Seq::<u8>::empty()
        },
{
    if !env_initialized {
        return Err(Error::NotInitialized);
    }
    match operation.state() {
        SessionState::Inert => {
            operation.authorize_setup(key_id, mac_alg);
            Ok(())
        },
        _ => Err(Error::InvalidState),
    }
}

/// Complete a multi-part setup from the provider's reported status. Out of
/// order (no setup was authorized) it fails with `InvalidState` and changes
/// nothing. A success status makes the session active with nothing absorbed;
/// any other status surfaces as the corresponding typed error and leaves the
/// session unusable until re-zeroed.
pub fn mac_sign_setup_end(operation: &mut MacOperation, status: i32) -> (r: Result<(), Error>)
    requires
        old(operation)@.wf(),
    ensures
        final(operation)@.wf(),
        old(operation)@.state != SessionState::SetupPending ==> (r matches Err(e) && e
            == Error::InvalidState && final(operation)@ == old(operation)@),
        old(operation)@.state == SessionState::SetupPending && status == PSA_SUCCESS ==> r is Ok
            && final(operation)@ == setup_ok_view(old(operation)@.key, old(operation)@.alg),
        old(operation)@.state == SessionState::SetupPending && status != PSA_SUCCESS ==> (r matches
            Err(e) && e == spec_error_of_status(status) && final(operation)@ == old(operation)@.with_state(SessionState::Unusable)),
{
    match operation.state() {
        SessionState::SetupPending => {
            match status_to_result(status) {
                Ok(()) => {
                    operation.set_state(SessionState::Active);
                    Ok(())
                },
                Err(e) => {
                    operation.mark_unusable();
                    Err(e)
                },
            }
        },
        _ => Err(Error::InvalidState),
    }
}

/// Authorize feeding one more chunk to an active session: the environment must
/// be ready and the session active; otherwise the request is rejected, the
/// session is left as it was, and no provider call may be made. When
/// authorized, the session records the chunk as pending and awaits the
/// provider's status for exactly one update call over these bytes.
pub fn mac_update_begin(operation: &mut MacOperation, input: &[u8], env_initialized: bool) -> (r:
    Result<(), Error>)
    requires
        old(operation)@.wf(),
    ensures
        final(operation)@.wf(),
        !env_initialized ==> (r matches Err(e) && e == Error::NotInitialized && final(operation)@
            == old(operation)@),
        env_initialized && old(operation)@.state != SessionState::Active ==> (r matches Err(e) && e
            == Error::InvalidState && final(operation)@ == old(operation)@),
        env_initialized && old(operation)@.state == SessionState::Active ==> r is Ok && final(operation)@ == old(operation)@.with_state(SessionState::UpdatePending).with_pending(input@),
{
    if !env_initialized {
        return Err(Error::NotInitialized);
    }
    match operation.state() {
        SessionState::Active => {
            operation.authorize_update(input);
            Ok(())
        },
        _ => Err(Error::InvalidState),
    }
}

/// Complete an update from the provider's reported status. Out of order (no
/// update was authorized) it fails with `InvalidState` and changes nothing. A
/// success status means the session has absorbed the pending chunk — appended
/// to what it had absorbed before, with no other trace of the chunk boundary —
/// and is active again. Any other status surfaces as the corresponding typed
/// error and leaves the session unusable until re-zeroed.
pub fn mac_update_end(operation: &mut MacOperation, status: i32) -> (r: Result<(), Error>)
    requires
        old(operation)@.wf(),
    ensures
        final(operation)@.wf(),
        old(operation)@.state != SessionState::UpdatePending ==> (r matches Err(e) && e
            == Error::InvalidState && final(operation)@ == old(operation)@),
        old(operation)@.state == SessionState::UpdatePending && status == PSA_SUCCESS ==> r is Ok
            && final(operation)@ == old(operation)@.with_state(SessionState::Active).with_fed(
            absorb(old(operation)@.fed, old(operation)@.pending),
        ).with_pending(Seq::<u8>::empty()),
        old(operation)@.state == SessionState::UpdatePending && status != PSA_SUCCESS ==> (r matches
            Err(e) && e == spec_error_of_status(status) && final(operation)@ == old(operation)@.with_state(SessionState::Unusable).with_pending(Seq::<u8>::empty())),
{
    match operation.state() {
        SessionState::UpdatePending => {
            match status_to_result(status) {
                Ok(()) => {
                    operation.absorb_pending();
                    Ok(())
                },
                Err(e) => {
                    operation.mark_unusable();
                    Err(e)
                },
            }
        },
        _ => Err(Error::InvalidState),
    }
}

/// Authorize finishing an active session: the environment must be ready and
/// the session active; otherwise the request is rejected, the session is left
/// as it was, and no provider call may be made. When authorized, the session
/// awaits the provider's status and output length for exactly one finish call,
/// which computes the MAC over every byte the session has absorbed.
pub fn mac_sign_finish_begin(operation: &mut MacOperation, env_initialized: bool) -> (r: Result<
    (),
    Error,
>)
    requires
        old(operation)@.wf(),
    ensures
        final(operation)@.wf(),
        !env_initialized ==> (r matches Err(e) && e == Error::NotInitialized && final(operation)@
            == old(operation)@),
        env_initialized && old(operation)@.state != SessionState::Active ==> (r matches Err(e) && e
            == Error::InvalidState && final(operation)@ == old(operation)@),
        env_initialized && old(operation)@.state == SessionState::Active ==> r is Ok && final(operation)@ == old(operation)@.with_state(SessionState::FinishPending),
{
    if !env_initialized {
        return Err(Error::NotInitialized);
    }
    match operation.state() {
        SessionState::Active => {
            operation.set_state(SessionState::FinishPending);
            Ok(())
        },
        _ => Err(Error::InvalidState),
    }
}

/// Complete a finish from the provider's reported status and output length,
/// for an output buffer of `mac_capacity` bytes. Out of order (no finish was
/// authorized) it fails with `InvalidState` and changes nothing. Otherwise the
/// session becomes `Finished` whatever the outcome — finishing is terminal —
/// and the result is exactly as for the one-shot computation: a non-success
/// status becomes the corresponding typed error, a reported length over the
/// buffer's capacity is rejected as a provider fault, and a returned length
/// never exceeds the buffer.
pub fn mac_sign_finish_end(
    operation: &mut MacOperation,
    status: i32,
    output_length: usize,
    mac_capacity: usize,
) -> (r: Result<usize, Error>)
    requires
        old(operation)@.wf(),
    ensures
        final(operation)@.wf(),
        old(operation)@.state != SessionState::FinishPending ==> (r matches Err(e) && e
            == Error::InvalidState && final(operation)@ == old(operation)@),
        old(operation)@.state == SessionState::FinishPending ==> final(operation)@ == old(operation)@.with_state(SessionState::Finished),
        old(operation)@.state == SessionState::FinishPending && status != PSA_SUCCESS ==> (r matches
            Err(e) && e == spec_error_of_status(status)),
        old(operation)@.state == SessionState::FinishPending && status == PSA_SUCCESS
            && output_length <= mac_capacity ==> r == Ok::<usize, Error>(output_length),
        old(operation)@.state == SessionState::FinishPending && status == PSA_SUCCESS
            && output_length > mac_capacity ==> (r matches Err(e) && e == Error::ProviderFault(
            PSA_ERROR_CORRUPTION_DETECTED)),
        (r matches Ok(n) && n <= mac_capacity) || r is Err,
{
    match operation.state() {
        SessionState::FinishPending => {
            operation.set_state(SessionState::Finished);
            compute_mac_end(status, output_length, mac_capacity)
        },
        _ => Err(Error::InvalidState),
    }
}

} // verus!
