//! The decision core of a single-window OpenGL 4.6 display.
//!
//! Nothing here talks to a window system. The crate decides what a display
//! asks of one: which window hints to set, which window to request, where to
//! put it, how to set up its context, in which order to start up and when to
//! give up, and in which order queued events reach their handler. A thin
//! shell performs these requests and reports back what happened.

pub mod display;
pub mod handler;
pub mod options;
