//! The lifecycle of one window session as a state machine.
//!
//! A session's thread performs the native work and reports each outcome as a
//! [`SessionEvent`]; [`WindowSession::step`] answers with the next state and
//! the [`SessionAction`] the thread must take.
use vstd::prelude::*;
use windows::Win32::Foundation::HWND;
use crate::error::{AdapterError, WindowError};

verus! {

/// `windows::Win32::Foundation::HWND`, the native window handle. It is
/// declared without its contents: the library stores and hands on such a
/// value and never looks inside it.
#[verifier::external_type_specification]
#[verifier::external_body]
pub struct ExHwnd(HWND);

/// Where a session stands in its life.
#[derive(Clone, Copy, Debug, PartialEq, Eq, Structural)]
pub enum SessionState {
    /// The thread runs; the native window does not exist yet.
    Starting,
    /// The native window exists and its message loop runs.
    Live,
    /// Teardown was requested; the message loop has not returned yet.
    Closing,
    /// The message loop returned and the native window is gone.
    Closed,
    /// Registration or creation failed; no window ever existed.
    FailedToStart,
}

/// Why a message loop returned.
#[derive(Clone, Copy, Debug, PartialEq, Eq, Structural)]
pub enum LoopExit {
    UserClosed,
    Error,
}

impl SessionEvent {
    /// The event that reports what the platform answered to the creation of
    /// the native window.
    pub open spec fn of_creation(outcome: Result<HWND, AdapterError>) -> SessionEvent {
        match outcome {
            Ok(handle) => SessionEvent::WindowCreated(handle),
            Err(_) => SessionEvent::CreationFailed,
        }
    }

    /// Turns the platform's answer to the creation of the native window
    /// into the event for the session.
    pub fn from_creation(outcome: Result<HWND, AdapterError>) -> (event: SessionEvent)
        ensures
            event == Self::of_creation(outcome),
    {
        match outcome {
            Ok(handle) => SessionEvent::WindowCreated(handle),
            Err(_) => SessionEvent::CreationFailed,
        }
    }
}

/// The single message a session sends to the constructor that waits for it.
#[derive(Clone, Copy, Debug, PartialEq, Eq)]
pub enum HandshakeSignal {
    Ready(HWND),
    Failed(AdapterError),
}

/// What the session's thread observed.
#[derive(Clone, Copy, Debug, PartialEq, Eq)]
pub enum SessionEvent {
    /// The window class is registered.
    ClassRegistered,
    /// The platform refused to register the window class.
    RegistrationFailed,
    /// The platform created the native window with this handle.
    WindowCreated(HWND),
    /// The platform refused to create the native window.
    CreationFailed,
    /// The user or the owning window asked for the window to close.
    CloseRequested,
    /// The message loop returned.
    LoopExited(LoopExit),
}

/// What the session's thread must do next.
#[derive(Clone, Copy, Debug, PartialEq, Eq)]
pub enum SessionAction {
    /// Create the native window on this thread.
    CreateWindow,
    /// Send the signal to the waiting constructor; after `Ready` run the
    /// message loop, after `Failed` let the thread end.
    Signal(HandshakeSignal),
    /// Tell the message loop to quit.
    StopLoop,
    /// Release the native resources and let the thread end, reporting the
    /// error if there is one.
    Release(Option<WindowError>),
    /// The event does not apply in this state: do nothing.
    Ignore,
}

/// A session: its state, whether its window class is registered, and the
/// native handle while the native window exists.
#[derive(Clone, Copy, Debug, PartialEq, Eq)]
pub struct WindowSession {
    pub state: SessionState,
    pub class_registered: bool,
    pub handle: Option<HWND>,
}

impl WindowSession {
    /// A session that has just been started.
    pub open spec fn fresh() -> WindowSession {
        WindowSession { state: SessionState::Starting, class_registered: false, handle: None }
    }

    /// A session whose native window exists under `handle`.
    pub open spec fn live(handle: HWND) -> WindowSession {
        WindowSession { state: SessionState::Live, class_registered: true, handle: Some(handle) }
    }

    /// The session holds a handle exactly while the native window exists, and
    /// a window only ever exists for a registered class.
    pub open spec fn wf(self) -> bool {
        &&& self.handle is Some <==> (self.state == SessionState::Live || self.state
            == SessionState::Closing)
        &&& self.state == SessionState::Live || self.state == SessionState::Closing || self.state
            == SessionState::Closed ==> self.class_registered
    }

    /// The native window exists and teardown has not been requested.
    pub open spec fn alive(self) -> bool {
        self.state == SessionState::Live
    }

    /// No event changes the session any more.
    pub open spec fn terminal(self) -> bool {
        self.state == SessionState::Closed || self.state == SessionState::FailedToStart
    }

    /// The action that ends a message loop which returned for `exit`.
    pub open spec fn release_for(exit: LoopExit) -> SessionAction {
        match exit {
            LoopExit::UserClosed => SessionAction::Release(None),
            LoopExit::Error => SessionAction::Release(Some(WindowError::Loop)),
        }
    }

    /// The transition relation: the session after `event`, and the action
    /// the event calls for.
    pub open spec fn transition(self, event: SessionEvent) -> (WindowSession, SessionAction) {
        match (self.state, event) {
            (SessionState::Starting, SessionEvent::ClassRegistered) if !self.class_registered => (
                WindowSession { class_registered: true, ..self },
                SessionAction::CreateWindow,
            ),
            (SessionState::Starting, SessionEvent::RegistrationFailed) if !self.class_registered => (
                WindowSession { state: SessionState::FailedToStart, ..self },
                SessionAction::Signal(HandshakeSignal::Failed(AdapterError::ClassRegistration)),
            ),
            (SessionState::Starting, SessionEvent::WindowCreated(h)) if self.class_registered => (
                WindowSession { state: SessionState::Live, handle: Some(h), ..self },
                SessionAction::Signal(HandshakeSignal::Ready(h)),
            ),
            (SessionState::Starting, SessionEvent::CreationFailed) if self.class_registered => (
                WindowSession { state: SessionState::FailedToStart, ..self },
                SessionAction::Signal(HandshakeSignal::Failed(AdapterError::WindowCreation)),
            ),
            (SessionState::Live, SessionEvent::CloseRequested) => (
                WindowSession { state: SessionState::Closing, ..self },
                SessionAction::StopLoop,
            ),
            (SessionState::Live, SessionEvent::LoopExited(exit)) => (
                WindowSession { state: SessionState::Closed, handle: None, ..self },
                Self::release_for(exit),
            ),
            (SessionState::Closing, SessionEvent::LoopExited(exit)) => (
                WindowSession { state: SessionState::Closed, handle: None, ..self },
                Self::release_for(exit),
            ),
            _ => (self, SessionAction::Ignore),
        }
    }

    /// The session after a sequence of events, taken in order.
    pub open spec fn run(self, events: Seq<SessionEvent>) -> WindowSession
        decreases events.len(),
    {
        if events.len() == 0 {
            self
        } else {
            self.run(events.drop_last()).transition(events.last()).0
        }
    }

    /// How many handshake signals the session sends over a sequence of events.
    pub open spec fn signals_sent(self, events: Seq<SessionEvent>) -> nat
        decreases events.len(),
    {
        if events.len() == 0 {
            0
        } else {
            let before = self.run(events.drop_last());
            let sent: nat = if before.transition(events.last()).1 is Signal {
                1
            } else {
                0
            };
            self.signals_sent(events.drop_last()) + sent
        }
    }

    /// The handshake signal that the session sent over a sequence of events,
    /// if it sent one.
    pub open spec fn signal_sent(self, events: Seq<SessionEvent>) -> Option<HandshakeSignal>
        decreases events.len(),
    {
        if events.len() == 0 {
            None
        } else {
            match self.run(events.drop_last()).transition(events.last()).1 {
                SessionAction::Signal(signal) => Some(signal),
                _ => self.signal_sent(events.drop_last()),
            }
        }
    }

    /// Starts a session: nothing is registered and no window exists.
    pub fn new() -> (s: Self)
        ensures
            s == Self::fresh(),
            s.wf(),
    {
        WindowSession { state: SessionState::Starting, class_registered: false, handle: None }
    }

    /// Takes one event: moves to the next state and says what to do.
    pub fn step(&mut self, event: SessionEvent) -> (action: SessionAction)
        ensures
            (*final(self), action) == old(self).transition(event),
            old(self).wf() ==> final(self).wf(),
    {
        match self.state {
            SessionState::Starting => match event {
                SessionEvent::ClassRegistered => {
                    if self.class_registered {
                        SessionAction::Ignore
                    } else {
                        self.class_registered = true;
                        SessionAction::CreateWindow
                    }
                },
                SessionEvent::RegistrationFailed => {
                    if self.class_registered {
                        SessionAction::Ignore
                    } else {
                        self.state = SessionState::FailedToStart;
                        SessionAction::Signal(
                            HandshakeSignal::Failed(AdapterError::ClassRegistration),
                        )
                    }
                },
                SessionEvent::WindowCreated(h) => {
                    if self.class_registered {
                        self.state = SessionState::Live;
                        self.handle = Some(h);
                        SessionAction::Signal(HandshakeSignal::Ready(h))
                    } else {
                        SessionAction::Ignore
                    }
                },
                SessionEvent::CreationFailed => {
                    if self.class_registered {
                        self.state = SessionState::FailedToStart;
                        SessionAction::Signal(HandshakeSignal::Failed(AdapterError::WindowCreation))
                    } else {
                        SessionAction::Ignore
                    }
                },
                _ => SessionAction::Ignore,
            },
            SessionState::Live => match event {
                SessionEvent::CloseRequested => {
                    self.state = SessionState::Closing;
                    SessionAction::StopLoop
                },
                SessionEvent::LoopExited(exit) => {
                    self.state = SessionState::Closed;
                    self.handle = None;
                    Self::release(exit)
                },
                _ => SessionAction::Ignore,
            },
            SessionState::Closing => match event {
                SessionEvent::LoopExited(exit) => {
                    self.state = SessionState::Closed;
                    self.handle = None;
                    Self::release(exit)
                },
                _ => SessionAction::Ignore,
            },
            _ => SessionAction::Ignore,
        }
    }

    /// The action that ends a message loop which returned for `exit`.
    pub fn release(exit: LoopExit) -> (action: SessionAction)
        ensures
            action == Self::release_for(exit),
    {
        match exit {
            LoopExit::UserClosed => SessionAction::Release(None),
            LoopExit::Error => SessionAction::Release(Some(WindowError::Loop)),
        }
    }

    /// Whether the native window exists and teardown has not been requested.
    pub fn is_alive(&self) -> (b: bool)
        ensures
            b == self.alive(),
    {
        match self.state {
            SessionState::Live => true,
            _ => false,
        }
    }

    /// Whether the session has ended, with or without a window.
    pub fn is_terminal(&self) -> (b: bool)
        ensures
            b == self.terminal(),
    {
        match self.state {
            SessionState::Closed => true,
            SessionState::FailedToStart => true,
            _ => false,
        }
    }
}

/// Every transition keeps the session well formed.
pub proof fn lemma_transition_preserves_wf(s: WindowSession, event: SessionEvent)
    requires
        s.wf(),
    ensures
        s.transition(event).0.wf(),
{
}

/// A well-formed session stays well formed over any sequence of events.
pub proof fn lemma_run_preserves_wf(s: WindowSession, events: Seq<SessionEvent>)
    requires
        s.wf(),
    ensures
        s.run(events).wf(),
    decreases events.len(),
{
    if events.len() > 0 {
        lemma_run_preserves_wf(s, events.drop_last());
    }
}

/// A session that is closed or failed to start stays as it is, whatever
/// happens, and asks for nothing.
pub proof fn lemma_terminal_absorbs(s: WindowSession, events: Seq<SessionEvent>)
    requires
        s.terminal(),
    ensures
        s.run(events) == s,
        s.signals_sent(events) == 0,
        forall|e: SessionEvent| (#[trigger] s.transition(e)).1 is Ignore,
    decreases events.len(),
{
    if events.len() > 0 {
        lemma_terminal_absorbs(s, events.drop_last());
    }
}

/// A session never returns to `Starting`, and it signals only on leaving it.
pub proof fn lemma_signal_leaves_starting(s: WindowSession, event: SessionEvent)
    ensures
        s.transition(event).1 is Signal ==> s.state == SessionState::Starting && s.transition(
            event,
        ).0.state != SessionState::Starting,
        s.state != SessionState::Starting ==> s.transition(event).0.state
            != SessionState::Starting,
{
}

/// Over any sequence of events a session sends at most one handshake signal,
/// and none while it is still starting.
pub proof fn lemma_at_most_one_signal(s: WindowSession, events: Seq<SessionEvent>)
    ensures
        s.signals_sent(events) <= 1,
        s.run(events).state == SessionState::Starting ==> s.signals_sent(events) == 0,
        s.state != SessionState::Starting ==> s.signals_sent(events) == 0 && s.run(events).state
            != SessionState::Starting,
    decreases events.len(),
{
    if events.len() > 0 {
        lemma_at_most_one_signal(s, events.drop_last());
        lemma_signal_leaves_starting(s.run(events.drop_last()), events.last());
    }
}

/// A session reports `Ready` only for the handle that the platform created,
/// and is live under that handle from then on; it reports `Failed` only on
/// ending in `FailedToStart`.
pub proof fn lemma_signal_tells_the_outcome(s: WindowSession, event: SessionEvent)
    requires
        s.wf(),
    ensures
        match s.transition(event).1 {
            SessionAction::Signal(HandshakeSignal::Ready(h)) => event == SessionEvent::WindowCreated(
                h,
            ) && s.transition(event).0 == WindowSession::live(h),
            SessionAction::Signal(HandshakeSignal::Failed(_)) => s.transition(event).0.state
                == SessionState::FailedToStart,
            _ => true,
        },
{
}

/// Whatever happens to a session from its start, its state and the signal
/// it sent agree. While it starts it has sent none. While its window exists
/// it has sent `Ready` with the very handle it holds. Once closed it had
/// sent `Ready`; having failed to start it has sent `Failed`. So a
/// constructor is never told of a handle that was not created, nor of a
/// failure by a session that has a window.
pub proof fn lemma_signal_agrees_with_state(events: Seq<SessionEvent>)
    ensures
        ({
            let s = WindowSession::fresh().run(events);
            let sent = WindowSession::fresh().signal_sent(events);
            &&& s.wf()
            &&& s.state == SessionState::Starting ==> sent is None
            &&& s.state == SessionState::Live || s.state == SessionState::Closing ==> s.handle
                is Some && sent == Some(HandshakeSignal::Ready(s.handle.unwrap()))
            &&& s.state == SessionState::Closed ==> sent is Some && sent.unwrap() is Ready
            &&& s.state == SessionState::FailedToStart ==> sent is Some && sent.unwrap() is Failed
        }),
    decreases events.len(),
{
    if events.len() > 0 {
        lemma_signal_agrees_with_state(events.drop_last());
    }
}

/// Only the creation of the native window makes a session live, and once it
/// is no longer live it never is again.
pub proof fn lemma_alive_only_from_creation(s: WindowSession, event: SessionEvent)
    ensures
        s.transition(event).0.alive() && !s.alive() ==> event is WindowCreated,
        !s.alive() && s.state != SessionState::Starting ==> !s.transition(event).0.alive(),
{
}

} // verus!
