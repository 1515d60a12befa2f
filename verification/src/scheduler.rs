//! Session-scoped message buffering.
//!
//! `Scheduler` accepts a message only for its current session and discards
//! the whole buffer the instant the session rotates: rotation is O(1) and
//! keeps no state from prior buffer contents.

use vstd::prelude::*;

use crate::Session;
use crate::crypto::Message;

verus! {

/// Error returned by scheduling: the offered session does not equal the
/// scheduler's current session — either already rotated past, or not yet
/// observed on this scheduler's own feed subscription.
#[derive(Debug, Clone, Copy, PartialEq, Eq, Structural)]
pub struct SessionMismatch;

/// The scheduler's state: its current session and the messages accepted,
/// in order, while that session was current.
pub struct BufferState {
    pub current_session: Session,
    pub messages: Seq<Message>,
}

/// Whether the scheduler would accept a message offered under `session`.
pub open spec fn accepts(b: BufferState, session: Session) -> bool {
    session == b.current_session
}

/// The state after a successful `schedule`: the message is appended, the
/// session unchanged.
pub open spec fn scheduled(b: BufferState, msg: Message) -> BufferState {
    BufferState { current_session: b.current_session, messages: b.messages.push(msg) }
}

/// The state after one rotation: the new session becomes current and the
/// buffer is unconditionally emptied, whatever it held.
pub open spec fn buffer_rotated(b: BufferState, new_session: Session) -> BufferState {
    BufferState { current_session: new_session, messages: Seq::empty() }
}

/// One current session plus an append-ordered buffer of messages accepted
/// under it, rotated by events from an external session feed (the feed
/// itself stays with the caller driving `rotate`).
pub struct Scheduler {
    current_session: Session,
    messages: Vec<Message>,
}

impl View for Scheduler {
    type V = BufferState;

    closed spec fn view(&self) -> BufferState {
        BufferState { current_session: self.current_session, messages: self.messages@ }
    }
}

impl Scheduler {
    /// Starts with the given session as current and an empty buffer.
    pub fn new(current_session: Session) -> (r: Self)
        ensures
            r@ == (BufferState { current_session, messages: Seq::<Message>::empty() }),
    {
        Scheduler { current_session, messages: Vec::new() }
    }

    /// Appends `msg` to the buffer iff `session` equals the current session;
    /// otherwise fails with `SessionMismatch` and leaves the state untouched.
    pub fn schedule(&mut self, msg: Message, session: Session) -> (r: Result<(), SessionMismatch>)
        ensures
            accepts(old(self)@, session) ==> r == Ok::<(), SessionMismatch>(())
                && final(self)@ == scheduled(old(self)@, msg),
            !accepts(old(self)@, session) ==> r == Err::<(), SessionMismatch>(SessionMismatch)
                && final(self)@ == old(self)@,
    {
        if session == self.current_session {
            self.messages.push(msg);
            Ok(())
        } else {
            Err(SessionMismatch)
        }
    }

    /// Applies one rotation observed on the session feed: the new session
    /// becomes current and the buffer is discarded in full — no migration of
    /// in-flight messages across a rotation.
    pub fn rotate(&mut self, new_session: Session)
        ensures
            final(self)@ == buffer_rotated(old(self)@, new_session),
    {
        self.current_session = new_session;
        self.messages.clear();
    }

    /// The session this scheduler currently accepts messages for.
    pub fn current_session(&self) -> (s: Session)
        ensures
            s == self@.current_session,
    {
        self.current_session
    }

    /// How many messages are buffered for the current session.
    pub fn buffered_len(&self) -> (n: usize)
        ensures
            n == self@.messages.len(),
    {
        self.messages.len()
    }
}

/// Law (rotation and scheduling): immediately after a rotation to
/// `new_session`, an offer under any other session — in particular the
/// previously current one — is refused, while an offer under `new_session`
/// is accepted and grows the buffer by exactly one; and a rotation empties
/// the buffer whatever it held before, so the rotation that follows resets
/// its length to zero.
pub proof fn lemma_rotation_scheduling(
    b: BufferState,
    msg: Message,
    previous_session: Session,
    new_session: Session,
    next_session: Session,
)
    ensures
        accepts(buffer_rotated(b, new_session), new_session),
        previous_session != new_session
            ==> !accepts(buffer_rotated(b, new_session), previous_session),
        scheduled(buffer_rotated(b, new_session), msg).messages.len()
            == buffer_rotated(b, new_session).messages.len() + 1,
        buffer_rotated(b, new_session).messages.len() == 0,
        buffer_rotated(scheduled(buffer_rotated(b, new_session), msg), next_session)
            .messages.len() == 0,
{
}

} // verus!
