//! A windowing core: pixel geometry, the lifecycle of a window session as a
//! state machine, and the window value that a completed start-up handshake
//! yields. The thread, the channel and the native calls live with the caller;
//! every decision is taken here.
#![allow(non_camel_case_types)]
#![allow(non_snake_case)]

pub mod error;
pub mod geometry;
pub mod handshake;
pub mod registry;
pub mod session;
pub mod window;
