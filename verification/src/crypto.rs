//! Decapsulation with a one-generation grace window.
//!
//! `CryptoProcessors` owns two generations of `CryptoProcessor` (current, and
//! at most one old). A rotation shifts current to old, dropping any prior
//! old, so a message bound to the current or the immediately preceding
//! session still decapsulates; anything older (or not yet observed) fails.

use vstd::prelude::*;

use crate::Session;

verus! {

/// Opaque payload bound to exactly one session at creation time; the binding
/// is revealed only by a successful decapsulation.
pub type Message = u8;

/// Error returned by decapsulation: the message's session is outside the
/// two-generation grace window — either stale by at least two rotations, or
/// from a future session this component has not yet observed.
#[derive(Debug, Clone, Copy, PartialEq, Eq, Structural)]
pub struct NoMatchingSession;

/// The generations a `CryptoProcessors` holds: the current session and, after
/// the first rotation, the immediately preceding one.
pub struct Generations {
    pub current: Session,
    pub old: Option<Session>,
}

/// The generation shift performed by one rotation: the new session becomes
/// current, the previously current session becomes old, and whatever was old
/// before is permanently forgotten.
pub open spec fn rotated(g: Generations, new_session: Session) -> Generations {
    Generations { current: new_session, old: Some(g.current) }
}

/// The session under which a message decapsulates, if any: the current
/// session is tried first, then the old one.
pub open spec fn decap_session(g: Generations, msg: Message) -> Option<Session> {
    if msg == g.current {
        Some(g.current)
    } else {
        match g.old {
            Some(s) => if msg == s { Some(s) } else { None },
            None => None,
        }
    }
}

/// An immutable binding of one session to decapsulation capability for
/// messages produced under exactly that session.
struct CryptoProcessor(Session);

impl View for CryptoProcessor {
    type V = Session;

    closed spec fn view(&self) -> Session {
        self.0
    }
}

impl CryptoProcessor {
    /// Succeeds iff the message's bound session equals this processor's own.
    fn decapsulate(&self, msg: Message) -> (r: Result<Message, NoMatchingSession>)
        ensures
            r == (if msg == self@ {
                Ok::<Message, NoMatchingSession>(msg)
            } else {
                Err::<Message, NoMatchingSession>(NoMatchingSession)
            }),
    {
        if self.session() == msg {
            Ok(msg)
        } else {
            Err(NoMatchingSession)
        }
    }

    fn session(&self) -> (s: Session)
        ensures
            s == self@,
    {
        self.0
    }
}

/// Two live generations of decapsulation capability, rotated by events from
/// an external session feed (the feed itself stays with the caller driving
/// `rotate`).
pub struct CryptoProcessors {
    current: CryptoProcessor,
    old: Option<CryptoProcessor>,
}

impl View for CryptoProcessors {
    type V = Generations;

    closed spec fn view(&self) -> Generations {
        Generations {
            current: self.current@,
            old: match self.old {
                Some(p) => Some(p@),
                None => None,
            },
        }
    }
}

impl CryptoProcessors {
    /// Starts with the given session as current and no old generation.
    pub fn new(current_session: Session) -> (r: Self)
        ensures
            r@ == (Generations { current: current_session, old: None::<Session> }),
    {
        CryptoProcessors { current: CryptoProcessor(current_session), old: None }
    }

    /// Decapsulates against the current generation first, then the old one.
    /// Never mutates: only `rotate` changes the generations.
    pub fn decapsulate(&self, msg: Message) -> (r: Result<(Session, Message), NoMatchingSession>)
        ensures
            r == (match decap_session(self@, msg) {
                Some(s) => Ok::<(Session, Message), NoMatchingSession>((s, msg)),
                None => Err::<(Session, Message), NoMatchingSession>(NoMatchingSession),
            }),
    {
        match self.current.decapsulate(msg) {
            Ok(result) => Ok((self.current.session(), result)),
            Err(_) => {
                if let Some(old_processor) = &self.old {
                    match old_processor.decapsulate(msg) {
                        Ok(result) => Ok((old_processor.session(), result)),
                        Err(e) => Err(e),
                    }
                } else {
                    Err(NoMatchingSession)
                }
            },
        }
    }

    /// Applies one rotation observed on the session feed: current shifts to
    /// old, the new session becomes current. The notification a driver emits
    /// for this event is an opaque unit; the new session value is learned
    /// only through a later successful decapsulation.
    pub fn rotate(&mut self, new_session: Session)
        ensures
            final(self)@ == rotated(old(self)@, new_session),
    {
        let previous_session = self.current.session();
        self.old = Some(CryptoProcessor(previous_session));
        self.current = CryptoProcessor(new_session);
    }
}

/// Binds a message to a session for transmission. A stand-in for a real
/// encapsulation step: the binding is the session value itself.
pub fn build_message(session: Session) -> (msg: Message)
    ensures
        msg == session,
{
    session
}

/// The generations after a whole sequence of rotations has been observed, in
/// order.
pub open spec fn after_rotations(g: Generations, sessions: Seq<Session>) -> Generations
    decreases sessions.len(),
{
    if sessions.len() == 0 {
        g
    } else {
        rotated(after_rotations(g, sessions.drop_last()), sessions.last())
    }
}

/// Law (grace window): for any sequence of sessions applied in order,
/// immediately after the session at position `k` becomes current, a message
/// bound to it decapsulates under it; one bound to the session at `k - 1`
/// still decapsulates under that session; and one bound to the session at
/// `k - 2` no longer decapsulates at all (whenever those three sessions are
/// pairwise distinct).
pub proof fn lemma_grace_window(g: Generations, sessions: Seq<Session>, k: int)
    requires
        0 <= k < sessions.len(),
    ensures
        decap_session(after_rotations(g, sessions.take(k + 1)), sessions[k])
            == Some(sessions[k]),
        k >= 1 && sessions[k - 1] != sessions[k]
            ==> decap_session(after_rotations(g, sessions.take(k + 1)), sessions[k - 1])
                == Some(sessions[k - 1]),
        k >= 2 && sessions[k - 2] != sessions[k] && sessions[k - 2] != sessions[k - 1]
            ==> decap_session(after_rotations(g, sessions.take(k + 1)), sessions[k - 2])
                == None::<Session>,
{
    let t = sessions.take(k + 1);
    assert(t.last() == sessions[k]);
    assert(t.drop_last() =~= sessions.take(k));
    if k >= 1 {
        let t0 = sessions.take(k);
        assert(t0.last() == sessions[k - 1]);
        assert(after_rotations(g, t0).current == sessions[k - 1]);
    }
}

} // verus!
