//! Laws of the multi-part protocol, stated over the session model.
//!
//! A finish call hands the provider nothing but its context, and the context
//! stands for the session's view: the key and algorithm bound at setup and the
//! bytes absorbed since ([`SessionView`]). The provider computes the MAC from
//! exactly that, so two sessions with equal views finish with byte-identical
//! output. The laws here pin down the views: how a message is chunked leaves
//! no trace in them, and a session fed a whole message in one update carries
//! precisely the key, algorithm and message bytes of the one-shot computation.

use vstd::prelude::*;

use crate::operation::{absorb, setup_ok_view, SessionState, SessionView};
use crate::types::{Id, Mac};

verus! {

/// The view of a session that completed a setup with `key` and `alg` and has
/// since absorbed each chunk of `chunks`, in order, each through one
/// successful update.
pub open spec fn session_after(key: Id, alg: Mac, chunks: Seq<Seq<u8>>) -> SessionView
    decreases chunks.len(),
{
    if chunks.len() == 0 {
        setup_ok_view(key, alg)
    } else {
        let prev = session_after(key, alg, chunks.drop_last());
        prev.with_fed(absorb(prev.fed, chunks.last()))
    }
}

/// A session absorbs exactly the concatenation of the chunks it was fed: for
/// every sequence of chunks, the session's view after setup and those updates
/// holds the chunks flattened into one byte sequence, still bound to the key
/// and algorithm of the setup. Chunk boundaries leave no trace at all.
pub proof fn lemma_session_absorbs_concatenation(key: Id, alg: Mac, chunks: Seq<Seq<u8>>)
    ensures
        session_after(key, alg, chunks).fed == chunks.flatten(),
        session_after(key, alg, chunks).key == key,
        session_after(key, alg, chunks).alg == alg,
        session_after(key, alg, chunks).state == SessionState::Active,
        session_after(key, alg, chunks).pending == Seq::<u8>::empty(),
    decreases chunks.len(),
{
    chunks.lemma_flatten_and_flatten_alt_are_equivalent();
    if chunks.len() == 0 {
        assert(chunks.flatten() =~= Seq::<u8>::empty());
    } else {
        lemma_session_absorbs_concatenation(key, alg, chunks.drop_last());
        assert(session_after(key, alg, chunks).fed == chunks.drop_last().flatten()
            + chunks.last());
        chunks.drop_last().lemma_flatten_and_flatten_alt_are_equivalent();
        assert(chunks.flatten_alt() == chunks.drop_last().flatten_alt() + chunks.last());
    }
}

/// Chunking invariance: a message fed as one chunk and the same message fed as
/// two chunks, split at any point, leave a session with the same view — the
/// same key, algorithm and absorbed bytes, with no trace of the chunk
/// boundary — so finish produces byte-identical output for both.
pub proof fn lemma_chunking_invariance(key: Id, alg: Mac, m: Seq<u8>, k: int)
    requires
        0 <= k <= m.len(),
    ensures
        session_after(key, alg, seq![m.subrange(0, k), m.subrange(k, m.len() as int)])
            == session_after(key, alg, seq![m]),
{
    let head = m.subrange(0, k);
    let tail = m.subrange(k, m.len() as int);
    let whole = seq![m];
    let split = seq![head, tail];
    let none = Seq::<Seq<u8>>::empty();

    assert(whole.drop_last() =~= none);
    assert(session_after(key, alg, none) == setup_ok_view(key, alg));
    assert(session_after(key, alg, whole) == setup_ok_view(key, alg).with_fed(
        absorb(Seq::<u8>::empty(), m),
    ));

    assert(split.drop_last() =~= seq![head]);
    assert(seq![head].drop_last() =~= none);
    assert(session_after(key, alg, seq![head]) == setup_ok_view(key, alg).with_fed(
        absorb(Seq::<u8>::empty(), head),
    ));
    assert(session_after(key, alg, split) == setup_ok_view(key, alg).with_fed(
        absorb(absorb(Seq::<u8>::empty(), head), tail),
    ));

    assert(absorb(absorb(Seq::<u8>::empty(), head), tail) =~= absorb(Seq::<u8>::empty(), m));
}

/// One-shot/multi-part equivalence: a fresh session set up with `key` and
/// `alg` that absorbs the whole message in a single update presents the
/// provider at finish with exactly the key, the algorithm and the message
/// bytes that the one-shot computation passes in its single call
/// (`compute_mac_begin` hands back that same triple as the authorized
/// request).
pub proof fn lemma_one_shot_equivalence(key: Id, alg: Mac, message: Seq<u8>)
    ensures
        session_after(key, alg, seq![message]).key == key,
        session_after(key, alg, seq![message]).alg == alg,
        session_after(key, alg, seq![message]).fed == message,
        session_after(key, alg, seq![message]).state == SessionState::Active,
{
    let none = Seq::<Seq<u8>>::empty();
    assert(seq![message].drop_last() =~= none);
    assert(session_after(key, alg, none) == setup_ok_view(key, alg));
    assert(session_after(key, alg, seq![message]) == setup_ok_view(key, alg).with_fed(
        absorb(Seq::<u8>::empty(), message),
    ));
    assert(absorb(Seq::<u8>::empty(), message) =~= message);
}

} // verus!
