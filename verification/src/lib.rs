//! Session rotation for a peer-to-peer channel: a decapsulation facility with
//! a one-generation grace window, and a session-scoped message scheduler.
//!
//! Both components observe session rotations independently (each through its
//! own subscription to one broadcast session feed), so "crypto has rotated"
//! and "scheduler has rotated" may hold at different moments. That skew is
//! surfaced as typed errors rather than hidden.

use vstd::prelude::*;

pub mod crypto;
pub mod scheduler;

verus! {

/// Opaque identifier for one generation of cryptographic material.
/// Produced externally; never mutated, only compared for equality.
pub type Session = u8;

/// Law (feed skew): the two components subscribe to the session feed
/// independently, so there is an interval in which the processors have
/// already observed a rotation that the scheduler has not. Throughout that
/// interval a message built for the new session decapsulates under it while
/// scheduling it under that same session still fails — the designed
/// cross-component race.
pub proof fn lemma_feed_skew(
    g: crypto::Generations,
    b: scheduler::BufferState,
    new_session: Session,
)
    requires
        b.current_session != new_session,
    ensures
        crypto::decap_session(crypto::rotated(g, new_session), new_session)
            == Some(new_session),
        !scheduler::accepts(b, new_session),
{
}

} // verus!
