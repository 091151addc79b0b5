//! The failures that window construction and a running session can report.
use vstd::prelude::*;

verus! {

/// Which native step the platform refused.
#[derive(Clone, Copy, Debug, PartialEq, Eq, Structural)]
pub enum AdapterError {
    /// The window class could not be registered.
    ClassRegistration,
    /// The native window could not be created.
    WindowCreation,
}

/// Why a window could not be built, or why its session ended badly.
#[derive(Clone, Copy, Debug, PartialEq, Eq, Structural)]
pub enum WindowError {
    /// The geometry has a negative width or height.
    Validation,
    /// The platform refused class registration or window creation.
    Adapter(AdapterError),
    /// The session did not answer within the allowed time.
    Timeout,
    /// Message dispatch failed while the window was live.
    Loop,
}

} // verus!
