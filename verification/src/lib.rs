//! Memory-safe front end for PSA message-authentication-code (MAC) operations.
//!
//! The crate verifies the marshaling layer that sits between a caller and a
//! PSA-compliant cryptographic provider: the one-shot compute/verify entry
//! points, the multi-part (setup/update/finish) session state machine, and the
//! translation of provider status codes into a typed error taxonomy. The
//! provider itself performs the cryptography and is driven by unverified host
//! code; each operation here is split into a verified request step (which
//! enforces the readiness and ordering preconditions before any provider call
//! is allowed) and a verified completion step (which folds the provider's
//! status back into the session).

pub mod laws;
pub mod mac;
pub mod operation;
pub mod status;
pub mod types;
