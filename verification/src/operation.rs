//! The multi-part operation object and its state machine.
//!
//! A [`MacOperation`] stands for one in-progress multi-part MAC computation.
//! The provider owns an opaque context for it in the host code; this crate
//! tracks the protocol state the context must be in, together with a ghost
//! record of the key, the algorithm and every byte the session has absorbed.
//! The contracts on the operations (in [`crate::mac`]) enforce the ordering
//! rules: one successful setup, any number of updates, one finish, and no
//! reuse after a failure without re-zeroing.

use vstd::prelude::*;

use crate::types::{Id, Mac};

verus! {

/// The operation used in multi-step crypto APIs.
#[derive(Debug, Copy, Clone)]
pub enum Operation {
    /// Operation for multi-part MAC.
    MacOperation,
    /// Operation for multi-part AEAD.
    AeadOperation,
    /// Operation for multi-part hashing.
    HashOperation,
}

/// The protocol state of a multi-part MAC session.
///
/// `Inert` is the zeroed state a fresh or reset session is in. Each operation
/// is split into a request step and a completion step, so between the two the
/// session sits in the matching `-Pending` state; only there may the host feed
/// the provider's status back in. `Finished` is terminal (a finish happened,
/// whatever its outcome), and `Unusable` records a failed setup or update:
/// both reject every further operation until the session is re-zeroed.
#[derive(Clone, Copy, PartialEq, Eq, Structural, Debug)]
pub enum SessionState {
    /// Zeroed and inert; only setup is accepted.
    Inert,
    /// A setup request was authorized; awaiting the provider's status.
    SetupPending,
    /// Set up successfully; accepting update and finish requests.
    Active,
    /// An update request was authorized; awaiting the provider's status.
    UpdatePending,
    /// A finish request was authorized; awaiting the provider's status.
    FinishPending,
    /// A finish completed (successfully or not); terminal until re-zeroed.
    Finished,
    /// A setup or update failed; the context is not trustworthy until re-zeroed.
    Unusable,
}

/// The mathematical model of a [`MacOperation`]: its protocol state, the key
/// and algorithm it was set up with, the bytes absorbed so far, and the chunk
/// an authorized update is about to feed.
pub ghost struct SessionView {
    pub state: SessionState,
    pub key: Id,
    pub alg: Mac,
    pub fed: Seq<u8>,
    pub pending: Seq<u8>,
}

impl SessionView {
    /// The same session view with another protocol state.
    pub open spec fn with_state(self, state: SessionState) -> SessionView {
        SessionView { state: state, ..self }
    }

    /// The same session view with other absorbed bytes.
    pub open spec fn with_fed(self, fed: Seq<u8>) -> SessionView {
        SessionView { fed: fed, ..self }
    }

    /// The same session view with another pending chunk.
    pub open spec fn with_pending(self, pending: Seq<u8>) -> SessionView {
        SessionView { pending: pending, ..self }
    }

    /// The internal invariant every session reachable through this crate's API
    /// keeps: a zeroed session is exactly the inert view, nothing has been
    /// absorbed before a setup completes, and a chunk is pending exactly while
    /// an authorized update awaits the provider's status.
    pub open spec fn wf(self) -> bool {
        &&& self.state == SessionState::Inert ==> self == inert_view()
        &&& self.state == SessionState::SetupPending ==> self.fed == Seq::<u8>::empty()
        &&& self.state != SessionState::UpdatePending ==> self.pending == Seq::<u8>::empty()
    }
}

/// The view of a zeroed session: inert, bound to the null key handle and the
/// null algorithm, with nothing absorbed.
pub open spec fn inert_view() -> SessionView {
    SessionView {
        state: SessionState::Inert,
        key: Id(0),
        alg: Mac(0),
        fed: Seq::<u8>::empty(),
        pending: Seq::<u8>::empty(),
    }
}

/// The view of a session immediately after a successful setup with `key` and
/// `alg`: active, with nothing absorbed yet.
pub open spec fn setup_ok_view(key: Id, alg: Mac) -> SessionView {
    SessionView {
        state: SessionState::Active,
        key: key,
        alg: alg,
        fed: Seq::<u8>::empty(),
        pending: Seq::<u8>::empty(),
    }
}

/// The bytes a session has absorbed after the provider accepts one more chunk:
/// the chunk is appended to what was absorbed before. Chunk boundaries leave
/// no other trace, which is what makes chunking invariance hold.
pub open spec fn absorb(fed: Seq<u8>, chunk: Seq<u8>) -> Seq<u8> {
    fed + chunk
}

/// A multi-part MAC session. The provider-owned context bytes live in the
/// (unverified) host code; this object carries the protocol state that decides
/// which operation the context may be fed next.
pub struct MacOperation {
    state: SessionState,
    key: Ghost<Id>,
    alg: Ghost<Mac>,
    fed: Ghost<Seq<u8>>,
    pending: Ghost<Seq<u8>>,
}

impl View for MacOperation {
    type V = SessionView;

    closed spec fn view(&self) -> SessionView {
        SessionView {
            state: self.state,
            key: self.key@,
            alg: self.alg@,
            fed: self.fed@,
            pending: self.pending@,
        }
    }
}

impl MacOperation {
    /// The current protocol state.
    pub fn state(&self) -> (s: SessionState)
        ensures
            s == self@.state,
    {
        self.state
    }

    /// Re-zero the session: whatever happened before, it is inert again and a
    /// new setup may bind it to a key and algorithm.
    pub fn reset(&mut self)
        ensures
            final(self)@ == inert_view(),
    {
        self.state = SessionState::Inert;
        self.key = Ghost(Id(0));
        self.alg = Ghost(Mac(0));
        self.fed = Ghost(Seq::<u8>::empty());
        self.pending = Ghost(Seq::<u8>::empty());
    }

    /// Move to another protocol state, leaving the rest of the view alone.
    pub(crate) fn set_state(&mut self, state: SessionState)
        ensures
            final(self)@ == old(self)@.with_state(state),
    {
        self.state = state;
    }

    /// Bind the session to `key_id` and `mac_alg` and await the provider's
    /// status for the one authorized setup call.
    pub(crate) fn authorize_setup(&mut self, key_id: Id, mac_alg: Mac)
        ensures
            final(self)@ == (SessionView {
                state: SessionState::SetupPending,
                key: key_id,
                alg: mac_alg,
                fed: Seq::<u8>::empty(),
                pending: Seq::<u8>::empty(),
            }),
    {
        self.state = SessionState::SetupPending;
        self.key = Ghost(key_id);
        self.alg = Ghost(mac_alg);
        self.fed = Ghost(Seq::<u8>::empty());
        self.pending = Ghost(Seq::<u8>::empty());
    }

    /// Record `input` as the pending chunk and await the provider's status for
    /// the one authorized update call over it.
    pub(crate) fn authorize_update(&mut self, input: &[u8])
        ensures
            final(self)@ == old(self)@.with_state(SessionState::UpdatePending).with_pending(
                input@,
            ),
    {
        self.state = SessionState::UpdatePending;
        self.pending = Ghost(input@);
    }

    /// A setup or update failed: discard any pending chunk and refuse every
    /// further operation until the session is re-zeroed.
    pub(crate) fn mark_unusable(&mut self)
        ensures
            final(self)@ == old(self)@.with_state(SessionState::Unusable).with_pending(
                Seq::<u8>::empty(),
            ),
    {
        self.state = SessionState::Unusable;
        self.pending = Ghost(Seq::<u8>::empty());
    }

    /// The provider accepted the pending chunk: the session has absorbed it
    /// and is active again.
    pub(crate) fn absorb_pending(&mut self)
        ensures
            final(self)@ == old(self)@.with_state(SessionState::Active).with_fed(
                absorb(old(self)@.fed, old(self)@.pending),
            ).with_pending(Seq::<u8>::empty()),
    {
        self.state = SessionState::Active;
        let ghost new_fed = absorb(self.fed@, self.pending@);
        self.fed = Ghost(new_fed);
        self.pending = Ghost(Seq::<u8>::empty());
    }
}

impl Default for MacOperation {
    /// A fresh session in the well-defined, inert zero state.
    fn default() -> (r: Self)
        ensures
            r@ == inert_view(),
    {
        MacOperation {
            state: SessionState::Inert,
            key: Ghost(Id(0)),
            alg: Ghost(Mac(0)),
            fed: Ghost(Seq::<u8>::empty()),
            pending: Ghost(Seq::<u8>::empty()),
        }
    }
}

} // verus!
