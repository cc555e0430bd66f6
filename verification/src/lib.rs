//! A pixel-buffer application runtime.
//!
//! The runtime owns a window, drives a per-frame render loop, dispatches
//! input events to registered handlers, and hands completed frames to a
//! background persistence worker.  The heart of the crate is an explicit
//! state machine: the host windowing layer feeds events in, and the runtime
//! answers with the next state together with the effects the host must
//! perform (create the window, present a buffer, save a frame, run a
//! handler, request another redraw).  Every transition is verified.

pub mod app;
pub mod config;
pub mod event;
pub mod input;
pub mod laws;
pub mod persist;
