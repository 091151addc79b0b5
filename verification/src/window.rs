//! The window value that callers hold, and how a finished start-up handshake
//! turns into one.
use vstd::prelude::*;
use windows::Win32::Foundation::HWND;
use crate::error::{AdapterError, WindowError};
use crate::geometry::uRect;
use crate::handshake::Handshake;
use crate::session::{
    lemma_terminal_absorbs, HandshakeSignal, SessionAction, SessionEvent, SessionState,
    WindowSession,
};

verus! {

/// The native style a window is created with.
#[derive(Clone, Copy, Debug, PartialEq, Eq, Structural)]
pub enum WindowKind {
    Normal,
    Popup,
}

/// The Win32 style bits of an overlapped window with caption, system menu,
/// sizing border and both caption buttons.
pub const STYLE_OVERLAPPED_WINDOW: u32 = 0x00CF_0000;

/// The Win32 style bit of a pop-up window.
pub const STYLE_POPUP: u32 = 0x8000_0000;

impl WindowKind {
    /// The native style that a window of this kind is created with.
    pub open spec fn style(self) -> u32 {
        match self {
            WindowKind::Normal => STYLE_OVERLAPPED_WINDOW,
            WindowKind::Popup => STYLE_POPUP,
        }
    }

    /// The native style bits to hand to the platform at creation.
    pub fn style_bits(&self) -> (bits: u32)
        ensures
            bits == self.style(),
    {
        match self {
            WindowKind::Normal => STYLE_OVERLAPPED_WINDOW,
            WindowKind::Popup => STYLE_POPUP,
        }
    }
}

/// A top-level window: what it was created with, its native handle, and the
/// state of the session that owns the native window.
#[derive(Debug)]
pub struct w32Window {
    w32Handle: HWND,
    frame: uRect,
    title: String,
    kind: WindowKind,
    session: WindowSession,
}

/// What a window is, as contracts see it.
pub struct WindowModel {
    pub handle: HWND,
    pub frame: uRect,
    pub title: Seq<char>,
    pub kind: WindowKind,
    pub session: WindowSession,
}

impl WindowModel {
    /// A window has a valid frame and a session that did start; while the
    /// session holds a handle it is the window's own.
    pub open spec fn wf(self) -> bool {
        &&& self.frame.valid()
        &&& self.session.wf()
        &&& self.session.state != SessionState::Starting
        &&& self.session.state != SessionState::FailedToStart
        &&& self.session.handle is Some ==> self.session.handle == Some(self.handle)
    }

    /// The window's session is live.
    pub open spec fn alive(self) -> bool {
        self.session.alive()
    }

    /// The window after its session took `event`.
    pub open spec fn after(self, event: SessionEvent) -> WindowModel {
        WindowModel { session: self.session.transition(event).0, ..self }
    }

    /// The window after a request to close it.
    pub open spec fn closed(self) -> WindowModel {
        self.after(SessionEvent::CloseRequested)
    }
}

impl View for w32Window {
    type V = WindowModel;

    closed spec fn view(&self) -> WindowModel {
        WindowModel {
            handle: self.w32Handle,
            frame: self.frame,
            title: self.title@,
            kind: self.kind,
            session: self.session,
        }
    }
}

impl w32Window {
    /// Every window value is well formed: none stands for a session that
    /// never started.
    #[verifier::type_invariant]
    spec fn inv(self) -> bool {
        self@.wf()
    }

    /// What asking for a window yields before any thread is started: a
    /// fresh session for a valid frame, a validation error otherwise.
    pub open spec fn begin_outcome(frame: uRect) -> Result<WindowSession, WindowError> {
        if frame.valid() {
            Ok(WindowSession::fresh())
        } else {
            Err(WindowError::Validation)
        }
    }

    /// What construction yields for a frame, a title, a kind and the reply
    /// of the session, where `None` stands for a session that stayed silent
    /// until the time allowed ran out.
    pub open spec fn init_outcome(
        frame: uRect,
        title: Seq<char>,
        kind: WindowKind,
        reply: Option<HandshakeSignal>,
    ) -> Result<WindowModel, WindowError> {
        if !frame.valid() {
            Err(WindowError::Validation)
        } else {
            match reply {
                None => Err(WindowError::Timeout),
                Some(HandshakeSignal::Failed(e)) => Err(WindowError::Adapter(e)),
                Some(HandshakeSignal::Ready(handle)) => Ok(
                    WindowModel { handle, frame, title, kind, session: WindowSession::live(handle) },
                ),
            }
        }
    }

    /// Decides whether a session may be started for `frame`. Only an `Ok`
    /// gives the caller a session to run on a thread of its own.
    pub fn begin(frame: &uRect) -> (r: Result<WindowSession, WindowError>)
        ensures
            r == Self::begin_outcome(*frame),
    {
        if frame.is_valid() {
            Ok(WindowSession::new())
        } else {
            Err(WindowError::Validation)
        }
    }

    /// Builds the window from what the caller asked for and from the reply
    /// of the session: `Some` signal that arrived, or `None` when the wait
    /// timed out. A window is returned only for a valid frame and a `Ready`
    /// signal, and it carries the handle of that signal.
    pub fn init(
        frame: uRect,
        title: String,
        kind: WindowKind,
        reply: Option<HandshakeSignal>,
    ) -> (r: Result<w32Window, WindowError>)
        ensures
            match r {
                Ok(w) => Self::init_outcome(frame, title@, kind, reply) == Ok::<
                    WindowModel,
                    WindowError,
                >(w@) && w@.wf() && w@.alive(),
                Err(e) => Self::init_outcome(frame, title@, kind, reply) == Err::<
                    WindowModel,
                    WindowError,
                >(e),
            },
    {
        if !frame.is_valid() {
            return Err(WindowError::Validation);
        }
        match reply {
            None => Err(WindowError::Timeout),
            Some(HandshakeSignal::Failed(e)) => Err(WindowError::Adapter(e)),
            Some(HandshakeSignal::Ready(handle)) => Ok(
                w32Window {
                    w32Handle: handle,
                    frame,
                    title,
                    kind,
                    session: WindowSession {
                        state: SessionState::Live,
                        class_registered: true,
                        handle: Some(handle),
                    },
                },
            ),
        }
    }

    /// Hands the window's session an event that its thread observed, and
    /// returns what the thread must do. Nothing but the session changes.
    pub fn on_session_event(&mut self, event: SessionEvent) -> (action: SessionAction)
        ensures
            final(self)@ == old(self)@.after(event),
            action == old(self)@.session.transition(event).1,
            final(self)@.wf(),
    {
        proof {
            use_type_invariant(&*self);
        }
        let mut session = self.session;
        let action = session.step(event);
        self.session = session;
        action
    }

    /// Asks the session to tear the window down. A live window starts
    /// closing and the result carries `StopLoop`; on a window that is
    /// closing or closed nothing changes and the result carries `Ignore`.
    pub fn close(&mut self) -> (r: Result<SessionAction, WindowError>)
        ensures
            r == Ok::<SessionAction, WindowError>(
                old(self)@.session.transition(SessionEvent::CloseRequested).1,
            ),
            final(self)@ == old(self)@.closed(),
            !final(self)@.alive(),
            final(self)@.wf(),
            !old(self)@.alive() ==> final(self)@ == old(self)@,
    {
        proof {
            use_type_invariant(&*self);
        }
        let mut session = self.session;
        let action = session.step(SessionEvent::CloseRequested);
        self.session = session;
        Ok(action)
    }

    /// Whether the window's session is live.
    pub fn is_alive(&self) -> (b: bool)
        ensures
            b == self@.alive(),
            self@.wf(),
    {
        proof {
            use_type_invariant(self);
        }
        self.session.is_alive()
    }

    /// The frame the window was created with.
    pub fn geometry(&self) -> (frame: uRect)
        ensures
            frame == self@.frame,
            frame.valid(),
    {
        proof {
            use_type_invariant(self);
        }
        self.frame
    }

    /// The title the window was created with.
    pub fn title(&self) -> (title: &str)
        ensures
            title@ == self@.title,
    {
        self.title.as_str()
    }

    /// The style the window was created with.
    pub fn kind(&self) -> (kind: WindowKind)
        ensures
            kind == self@.kind,
    {
        self.kind
    }

    /// The native handle that the session reported on becoming ready.
    pub fn handle(&self) -> (handle: HWND)
        ensures
            handle == self@.handle,
    {
        self.w32Handle
    }

    /// The state of the window's session.
    pub fn state(&self) -> (state: SessionState)
        ensures
            state == self@.session.state,
            state != SessionState::Starting,
            state != SessionState::FailedToStart,
    {
        proof {
            use_type_invariant(self);
        }
        self.session.state
    }
}

/// With a valid frame and a platform that registers the class and creates
/// the window, the session signals `Ready` with the created handle, and
/// construction on that signal yields a live window that holds what was
/// asked for, the created handle, and the session's own state.
pub proof fn lemma_valid_frame_starts_alive(
    frame: uRect,
    title: Seq<char>,
    kind: WindowKind,
    handle: HWND,
)
    requires
        frame.valid(),
    ensures
        w32Window::begin_outcome(frame) == Ok::<WindowSession, WindowError>(WindowSession::fresh()),
        WindowSession::fresh().transition(SessionEvent::ClassRegistered).1 is CreateWindow,
        WindowSession::fresh().transition(SessionEvent::ClassRegistered).0.transition(
            SessionEvent::WindowCreated(handle),
        ) == (WindowSession::live(handle), SessionAction::Signal(HandshakeSignal::Ready(handle))),
        w32Window::init_outcome(frame, title, kind, Some(HandshakeSignal::Ready(handle))) is Ok,
        ({
            let w = w32Window::init_outcome(
                frame,
                title,
                kind,
                Some(HandshakeSignal::Ready(handle)),
            ).unwrap();
            &&& w.alive()
            &&& w.wf()
            &&& w.frame == frame
            &&& w.title == title
            &&& w.kind == kind
            &&& w.handle == handle
            &&& w.session == WindowSession::live(handle)
        }),
{
}

/// A frame with a negative width or height is refused with a validation
/// error whatever the session would have replied, and no session is handed
/// out to be started for it.
pub proof fn lemma_invalid_frame_rejected(
    frame: uRect,
    title: Seq<char>,
    kind: WindowKind,
    reply: Option<HandshakeSignal>,
)
    requires
        frame.width < 0 || frame.height < 0,
    ensures
        w32Window::begin_outcome(frame) == Err::<WindowSession, WindowError>(
            WindowError::Validation,
        ),
        w32Window::init_outcome(frame, title, kind, reply) == Err::<WindowModel, WindowError>(
            WindowError::Validation,
        ),
{
}

/// When the platform refuses a step of the start-up, the session fails to
/// start and signals the refusal, construction on that signal reports the
/// same adapter error, and the session is never live afterwards.
pub proof fn lemma_adapter_failure_reported(
    frame: uRect,
    title: Seq<char>,
    kind: WindowKind,
    events: Seq<SessionEvent>,
)
    requires
        frame.valid(),
    ensures
        ({
            let (failed, action) = WindowSession::fresh().transition(
                SessionEvent::RegistrationFailed,
            );
            &&& failed.state == SessionState::FailedToStart
            &&& action == SessionAction::Signal(
                HandshakeSignal::Failed(AdapterError::ClassRegistration),
            )
            &&& !failed.run(events).alive()
        }),
        ({
            let (failed, action) = WindowSession::fresh().transition(
                SessionEvent::ClassRegistered,
            ).0.transition(SessionEvent::CreationFailed);
            &&& failed.state == SessionState::FailedToStart
            &&& action == SessionAction::Signal(
                HandshakeSignal::Failed(AdapterError::WindowCreation),
            )
            &&& !failed.run(events).alive()
        }),
        forall|e: AdapterError| #[trigger]
            w32Window::init_outcome(frame, title, kind, Some(HandshakeSignal::Failed(e))) == Err::<
                WindowModel,
                WindowError,
            >(WindowError::Adapter(e)),
{
    lemma_terminal_absorbs(
        WindowSession::fresh().transition(SessionEvent::RegistrationFailed).0,
        events,
    );
    lemma_terminal_absorbs(
        WindowSession::fresh().transition(SessionEvent::ClassRegistered).0.transition(
            SessionEvent::CreationFailed,
        ).0,
        events,
    );
}

/// A constructor whose wait runs out before any signal reports a timeout
/// for every valid frame, and the window is not left running behind its
/// back: a session that signals `Ready` afterwards is not heard, is handed a
/// close request instead, and on it stops its message loop.
pub proof fn lemma_timeout_tears_the_window_down(
    frame: uRect,
    title: Seq<char>,
    kind: WindowKind,
    handle: HWND,
)
    requires
        frame.valid(),
    ensures
        w32Window::init_outcome(frame, title, kind, Handshake::Waiting.settled().reply()) == Err::<
            WindowModel,
            WindowError,
        >(WindowError::Timeout),
        Handshake::Waiting.settled().delivered(HandshakeSignal::Ready(handle)).reply()
            == None::<HandshakeSignal>,
        Handshake::Waiting.settled().feedback() == Some(SessionEvent::CloseRequested),
        WindowSession::live(handle).transition(SessionEvent::CloseRequested) == (
            WindowSession { state: SessionState::Closing, ..WindowSession::live(handle) },
            SessionAction::StopLoop,
        ),
{
}

/// Closing is idempotent: after one request the window is not alive, and a
/// second request changes nothing and asks for nothing.
pub proof fn lemma_close_idempotent(w: WindowModel)
    ensures
        !w.closed().alive(),
        w.closed().closed() == w.closed(),
        w.closed().session.transition(SessionEvent::CloseRequested).1 is Ignore,
        w.wf() ==> w.closed().wf(),
{
}

/// Windows built from the signals of sessions with different handles report
/// different handles, each its own, and no event on one of them makes it
/// report the other's.
pub proof fn lemma_windows_keep_their_own_handles(
    frame: uRect,
    title: Seq<char>,
    kind: WindowKind,
    first: HWND,
    second: HWND,
    event: SessionEvent,
)
    requires
        frame.valid(),
        first != second,
    ensures
        ({
            let a = w32Window::init_outcome(
                frame,
                title,
                kind,
                Some(HandshakeSignal::Ready(first)),
            ).unwrap();
            let b = w32Window::init_outcome(
                frame,
                title,
                kind,
                Some(HandshakeSignal::Ready(second)),
            ).unwrap();
            &&& a.handle == first
            &&& b.handle == second
            &&& a.handle != b.handle
            &&& a.after(event).handle != b.handle
            &&& b.alive()
        }),
{
}

/// Nothing that happens to a window's session changes its frame, title,
/// kind or handle, and a window that is no longer alive never is again.
pub proof fn lemma_events_keep_identity(w: WindowModel, event: SessionEvent)
    requires
        w.wf(),
    ensures
        w.after(event).wf(),
        w.after(event).frame == w.frame,
        w.after(event).title == w.title,
        w.after(event).kind == w.kind,
        w.after(event).handle == w.handle,
        !w.alive() ==> !w.after(event).alive(),
{
}

} // verus!
