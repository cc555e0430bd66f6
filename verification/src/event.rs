//! Events the host delivers to the runtime, and the effects the runtime
//! asks the host to perform in return.
//!
//! The runtime is a pure event consumer: it never calls back into the
//! windowing layer.  Each transition answers with a list of [`Effect`]s;
//! the host performs them in order.

use vstd::prelude::*;
use crate::input::{ButtonId, HandlerId, KeyId};

verus! {

/// A lifecycle or input event, as delivered by the host windowing layer.
///
/// A completed draw is fed in separately (it carries the pixel buffer):
/// see `App::on_redraw`.
#[derive(Clone, Copy, Debug, PartialEq, Eq, Structural)]
pub enum Event {
    /// The host signals that a window may be created.
    Resumed,
    /// The operator asked to close the window.
    CloseRequested,
    /// A key changed state.
    KeyInput { key: KeyId, pressed: bool },
    /// A mouse button was pressed.
    MouseInput { button: ButtonId },
    /// The cursor moved to the given logical position, in thousandths of a
    /// logical pixel.
    CursorMoved { x: i64, y: i64 },
    /// The cursor entered the window.
    CursorEntered,
    /// The cursor left the window.
    CursorLeft,
    /// The host failed to present a frame; fatal to the runtime.
    PresentFailed,
}

/// A completed frame, handed to the persistence worker.  Ownership of the
/// pixel buffer transfers fully at send time.
#[derive(Debug)]
pub struct SaveRequest {
    /// The frame's RGBA bytes, rows top to bottom.
    pub pixels: Vec<u8>,
    /// File name to write the encoded frame under; unique per request.
    pub filename: String,
    /// Frame width in pixels.
    pub width: u32,
    /// Frame height in pixels.
    pub height: u32,
}

impl SaveRequest {
    /// The request describes a full RGBA frame of its stated dimensions.
    pub open spec fn encodable(self) -> bool {
        self.width > 0 && self.height > 0 && self.pixels@.len() == self.width as nat
            * self.height as nat * 4
    }
}

/// An action the runtime asks the host to perform.
#[derive(Debug)]
pub enum Effect {
    /// Create the window, once, with these dimensions and title.
    CreateWindow { width: u32, height: u32, title: String },
    /// Schedule another redraw.
    RequestRedraw,
    /// Copy this buffer into the presentation surface and submit it.
    Present { buffer: Vec<u8> },
    /// Hand this frame to the persistence worker, without blocking.
    Save { request: SaveRequest },
    /// Invoke the registered handler with this identifier.
    InvokeHandler { handler: HandlerId },
    /// Compute the next model via the update function and replace it.
    RunUpdate,
    /// Show the crosshair cursor.
    ShowCursorCrosshair,
    /// Hide the cursor.
    HideCursor,
    /// Restore the default, visible cursor.
    ResetCursor,
    /// Print the end-of-run summary.
    EmitSummary { frames: u32, elapsed_micros: u64 },
    /// Leave the event loop.
    Exit,
}

/// The draw function broke its contract.
#[derive(Clone, Copy, Debug, PartialEq, Eq, Structural)]
pub enum ContractViolation {
    /// The returned pixel buffer does not hold width * height * 4 bytes.
    PixelBufferWrongLength { expected: u128, actual: u128 },
}

/// A frame could not be persisted.  Never fatal: the worker reports the
/// failure and goes on with the next request.
#[derive(Clone, Copy, Debug, PartialEq, Eq, Structural)]
pub enum PersistenceError {
    /// The output directory could not be created.
    DirectoryCreateFailed,
    /// The frame could not be encoded.
    EncodeFailed,
    /// The encoded file could not be written.
    WriteFailed,
}

} // verus!
