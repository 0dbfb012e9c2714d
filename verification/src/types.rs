//! Plain-value models of the identifiers the provider consumes.
//!
//! The core never inspects key material or algorithm structure: a key is an
//! opaque handle issued by the key-management subsystem, and an algorithm is
//! the provider's 32-bit encoding of a MAC construction. Both are routed
//! through to the provider unchanged.

use vstd::prelude::*;

verus! {

/// An opaque key handle, previously issued by the key-management subsystem,
/// denoting a key together with its usage policy. The provider's encoding is a
/// 32-bit identifier; zero is the null handle.
#[derive(Clone, Copy, PartialEq, Eq, Structural, Debug)]
pub struct Id(pub u32);

/// A MAC algorithm identifier in the provider's 32-bit encoding (which MAC
/// construction to use and, where applicable, a truncation length). The
/// encoding itself is owned by the provider; zero encodes "no algorithm".
#[derive(Clone, Copy, PartialEq, Eq, Structural, Debug)]
pub struct Mac(pub u32);

} // verus!
