//! The one-shot exchange between a session and the constructor that waits
//! for it.
//!
//! The caller keeps one handshake behind a lock. The session delivers its
//! signal into it; the constructor settles it when it is woken or when its
//! wait runs out. Whichever comes first decides, once and for all.
use vstd::prelude::*;
use crate::session::{HandshakeSignal, SessionEvent};

verus! {

/// The state of the exchange.
#[derive(Clone, Copy, Debug, PartialEq, Eq)]
pub enum Handshake {
    /// The session has not signalled and the constructor still waits.
    Waiting,
    /// The session's signal arrived while the constructor waited.
    Answered(HandshakeSignal),
    /// The constructor stopped waiting before any signal arrived.
    TimedOut,
}

impl Handshake {
    /// The handshake after the session delivered `signal`: only a waiting
    /// handshake takes it.
    pub open spec fn delivered(self, signal: HandshakeSignal) -> Handshake {
        match self {
            Handshake::Waiting => Handshake::Answered(signal),
            _ => self,
        }
    }

    /// The handshake after the constructor stopped waiting: a handshake
    /// without an answer has timed out.
    pub open spec fn settled(self) -> Handshake {
        match self {
            Handshake::Waiting => Handshake::TimedOut,
            _ => self,
        }
    }

    /// What the constructor learns: the signal that arrived in time, if any.
    pub open spec fn reply(self) -> Option<HandshakeSignal> {
        match self {
            Handshake::Answered(signal) => Some(signal),
            _ => None,
        }
    }

    /// What the session is told after a delivery: nothing when its signal
    /// was taken, a request to close when nobody waits for the window.
    pub open spec fn feedback(self) -> Option<SessionEvent> {
        match self {
            Handshake::Waiting => None,
            _ => Some(SessionEvent::CloseRequested),
        }
    }

    /// A handshake that waits for its session.
    pub fn new() -> (h: Self)
        ensures
            h is Waiting,
    {
        Handshake::Waiting
    }

    /// Whether the constructor must go on waiting.
    pub fn is_waiting(&self) -> (b: bool)
        ensures
            b == (*self is Waiting),
    {
        match self {
            Handshake::Waiting => true,
            _ => false,
        }
    }

    /// The session's side. A waiting handshake takes the signal and the
    /// session goes on. A handshake that is already decided stays as it is,
    /// and the session is handed a close request: the constructor gave up,
    /// so a window that was created has no owner and must be torn down.
    pub fn deliver(&mut self, signal: HandshakeSignal) -> (feedback: Option<SessionEvent>)
        ensures
            *final(self) == old(self).delivered(signal),
            feedback == old(self).feedback(),
    {
        match self {
            Handshake::Waiting => {
                *self = Handshake::Answered(signal);
                None
            },
            _ => Some(SessionEvent::CloseRequested),
        }
    }

    /// The constructor's side, called once it was woken or its wait ran
    /// out. Returns the signal that arrived in time, or `None` for a
    /// timeout; the handshake is decided from then on.
    pub fn settle(&mut self) -> (reply: Option<HandshakeSignal>)
        ensures
            *final(self) == old(self).settled(),
            reply == final(self).reply(),
            reply == old(self).reply(),
            !(*final(self) is Waiting),
    {
        match self {
            Handshake::Waiting => {
                *self = Handshake::TimedOut;
                None
            },
            Handshake::Answered(signal) => Some(*signal),
            Handshake::TimedOut => None,
        }
    }
}

/// The constructor observes exactly one outcome: once a handshake is
/// answered or timed out, no delivery and no settling changes it or what it
/// replies, and every later delivery is turned back.
pub proof fn lemma_handshake_decides_once(h: Handshake, signal: HandshakeSignal)
    requires
        !(h is Waiting),
    ensures
        h.delivered(signal) == h,
        h.settled() == h,
        h.delivered(signal).reply() == h.reply(),
        h.feedback() == Some(SessionEvent::CloseRequested),
{
}

/// Whichever side comes first decides: a signal delivered before the
/// constructor settles is the reply, and a signal delivered after it is
/// never seen.
pub proof fn lemma_first_side_decides(first: HandshakeSignal, second: HandshakeSignal)
    ensures
        Handshake::Waiting.delivered(first).settled().reply() == Some(first),
        Handshake::Waiting.delivered(first).delivered(second).reply() == Some(first),
        Handshake::Waiting.settled().delivered(first).reply() == None::<HandshakeSignal>,
        Handshake::Waiting.feedback() == None::<SessionEvent>,
{
}

} // verus!
