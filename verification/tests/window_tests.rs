use universalui_win32::error::{AdapterError, WindowError};
use universalui_win32::geometry::uRect;
use universalui_win32::session::{
    HandshakeSignal, LoopExit, SessionAction, SessionEvent, SessionState, WindowSession,
};
use universalui_win32::window::{w32Window, WindowKind, STYLE_OVERLAPPED_WINDOW, STYLE_POPUP};
use windows::Win32::Foundation::HWND;
use windows::Win32::UI::WindowsAndMessaging::{WS_OVERLAPPEDWINDOW, WS_POPUP};

fn ready(raw: isize) -> Option<HandshakeSignal> {
    Some(HandshakeSignal::Ready(HWND(raw)))
}

fn demo() -> w32Window {
    let frame = uRect { x: 0, y: 0, width: 800, height: 600 };
    w32Window::init(frame, String::from("Demo"), WindowKind::Normal, ready(1234)).unwrap()
}

#[test]
fn demo_window_keeps_geometry_and_title() {
    let frame = uRect { x: 0, y: 0, width: 800, height: 600 };
    let w = w32Window::init(frame, String::from("Demo"), WindowKind::Normal, ready(1234)).unwrap();
    assert_eq!(w.geometry(), frame);
    assert_eq!(w.title(), "Demo");
    assert_eq!(w.kind(), WindowKind::Normal);
    assert_eq!(w.handle(), HWND(1234));
    assert_eq!(w.state(), SessionState::Live);
}

#[test]
fn valid_frames_give_live_windows() {
    let frames = [
        uRect { x: 0, y: 0, width: 0, height: 0 },
        uRect { x: -500, y: -500, width: 1, height: 1 },
        uRect { x: 10, y: 20, width: i32::MAX, height: i32::MAX },
        uRect { x: i32::MIN, y: i32::MAX, width: 640, height: 0 },
    ];
    for frame in frames {
        for kind in [WindowKind::Normal, WindowKind::Popup] {
            let w = w32Window::init(frame, String::from("w"), kind, ready(8)).unwrap();
            assert!(w.is_alive());
            assert_eq!(w.geometry(), frame);
            assert_eq!(w.kind(), kind);
        }
    }
}

#[test]
fn invalid_frames_are_rejected_whatever_the_reply() {
    let frames = [
        uRect { x: 0, y: 0, width: -1, height: 600 },
        uRect { x: 0, y: 0, width: 800, height: -1 },
        uRect { x: 3, y: 4, width: i32::MIN, height: i32::MIN },
    ];
    let replies = [
        ready(1),
        Some(HandshakeSignal::Failed(AdapterError::ClassRegistration)),
        Some(HandshakeSignal::Failed(AdapterError::WindowCreation)),
        None,
    ];
    for frame in frames {
        assert_eq!(w32Window::begin(&frame), Err(WindowError::Validation));
        for reply in replies {
            let r = w32Window::init(frame, String::from("t"), WindowKind::Normal, reply);
            assert_eq!(r.err(), Some(WindowError::Validation));
        }
    }
}

#[test]
fn begin_hands_out_a_fresh_session_for_a_valid_frame() {
    let frame = uRect { x: 0, y: 0, width: 800, height: 600 };
    assert_eq!(w32Window::begin(&frame), Ok(WindowSession::new()));
}

#[test]
fn failed_registration_is_reported_as_adapter_error() {
    let frame = uRect { x: 0, y: 0, width: 800, height: 600 };
    let mut session = w32Window::begin(&frame).unwrap();
    let action = session.step(SessionEvent::RegistrationFailed);
    let reply = match action {
        SessionAction::Signal(signal) => Some(signal),
        _ => None,
    };
    let r = w32Window::init(frame, String::from("Demo"), WindowKind::Normal, reply);
    assert_eq!(r.err(), Some(WindowError::Adapter(AdapterError::ClassRegistration)));
    assert!(!session.is_alive());
    assert_eq!(session.state, SessionState::FailedToStart);
}

#[test]
fn failed_creation_is_reported_as_adapter_error() {
    let frame = uRect { x: 0, y: 0, width: 800, height: 600 };
    let reply = Some(HandshakeSignal::Failed(AdapterError::WindowCreation));
    let r = w32Window::init(frame, String::from("Demo"), WindowKind::Popup, reply);
    assert_eq!(r.err(), Some(WindowError::Adapter(AdapterError::WindowCreation)));
}

#[test]
fn silent_session_is_reported_as_timeout() {
    let frame = uRect { x: 0, y: 0, width: 800, height: 600 };
    let r = w32Window::init(frame, String::from("Demo"), WindowKind::Normal, None);
    assert_eq!(r.err(), Some(WindowError::Timeout));
}

#[test]
fn window_matches_the_session_that_signalled_ready() {
    let frame = uRect { x: 1, y: 2, width: 3, height: 4 };
    let mut session = w32Window::begin(&frame).unwrap();
    assert_eq!(session.step(SessionEvent::ClassRegistered), SessionAction::CreateWindow);
    let action = session.step(SessionEvent::from_creation(Ok(HWND(55))));
    let reply = match action {
        SessionAction::Signal(signal) => Some(signal),
        _ => None,
    };
    let w = w32Window::init(frame, String::from("x"), WindowKind::Normal, reply).unwrap();
    assert_eq!(w.handle(), HWND(55));
    assert_eq!(Some(w.handle()), session.handle);
    assert_eq!(w.state(), session.state);
    assert_eq!(w.is_alive(), session.is_alive());
}

#[test]
fn close_is_idempotent() {
    let mut w = demo();
    assert!(w.is_alive());
    assert_eq!(w.close(), Ok(SessionAction::StopLoop));
    assert!(!w.is_alive());
    assert_eq!(w.state(), SessionState::Closing);
    assert_eq!(w.close(), Ok(SessionAction::Ignore));
    assert!(!w.is_alive());
    assert_eq!(w.state(), SessionState::Closing);
}

#[test]
fn close_on_a_closed_window_is_a_no_op() {
    let mut w = demo();
    w.on_session_event(SessionEvent::LoopExited(LoopExit::UserClosed));
    assert_eq!(w.state(), SessionState::Closed);
    assert_eq!(w.close(), Ok(SessionAction::Ignore));
    assert_eq!(w.state(), SessionState::Closed);
    assert!(!w.is_alive());
}

#[test]
fn session_events_change_only_the_state() {
    let mut w = demo();
    assert_eq!(w.on_session_event(SessionEvent::CloseRequested), SessionAction::StopLoop);
    assert_eq!(
        w.on_session_event(SessionEvent::LoopExited(LoopExit::Error)),
        SessionAction::Release(Some(WindowError::Loop))
    );
    assert_eq!(w.state(), SessionState::Closed);
    assert_eq!(w.geometry(), uRect { x: 0, y: 0, width: 800, height: 600 });
    assert_eq!(w.title(), "Demo");
    assert_eq!(w.kind(), WindowKind::Normal);
    assert_eq!(w.handle(), HWND(1234));
}

#[test]
fn start_up_events_do_not_revive_a_window() {
    let mut w = demo();
    w.close().unwrap();
    w.on_session_event(SessionEvent::LoopExited(LoopExit::UserClosed));
    assert_eq!(w.on_session_event(SessionEvent::ClassRegistered), SessionAction::Ignore);
    assert_eq!(w.on_session_event(SessionEvent::WindowCreated(HWND(2))), SessionAction::Ignore);
    assert!(!w.is_alive());
    assert_eq!(w.handle(), HWND(1234));
}

#[test]
fn many_windows_are_independent() {
    let frame = uRect { x: 0, y: 0, width: 320, height: 200 };
    let mut windows: Vec<w32Window> = Vec::new();
    for i in 0..12isize {
        let title = format!("window {}", i);
        windows.push(w32Window::init(frame, title, WindowKind::Normal, ready(100 + i)).unwrap());
    }
    for (i, a) in windows.iter().enumerate() {
        assert!(a.is_alive());
        for b in windows.iter().skip(i + 1) {
            assert_ne!(a.handle(), b.handle());
        }
    }
    windows[3].close().unwrap();
    windows[7].on_session_event(SessionEvent::LoopExited(LoopExit::Error));
    for (i, w) in windows.iter().enumerate() {
        assert_eq!(w.is_alive(), i != 3 && i != 7);
        assert_eq!(w.handle(), HWND(100 + i as isize));
        assert_eq!(w.title(), format!("window {}", i));
    }
}

#[test]
fn kinds_map_to_native_styles() {
    assert_eq!(WindowKind::Normal.style_bits(), 0x00CF_0000);
    assert_eq!(WindowKind::Popup.style_bits(), 0x8000_0000);
    assert_eq!(WindowKind::Normal.style_bits(), STYLE_OVERLAPPED_WINDOW);
    assert_eq!(WindowKind::Popup.style_bits(), STYLE_POPUP);
    assert_eq!(WindowKind::Normal.style_bits(), WS_OVERLAPPEDWINDOW.0);
    assert_eq!(WindowKind::Popup.style_bits(), WS_POPUP.0);
}
