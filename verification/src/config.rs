//! Window and render-loop configuration.
//!
//! A `Config` is immutable once the runtime starts: the builder-style
//! setters are meant to be chained before the runtime is constructed.

use vstd::prelude::*;

verus! {

/// Default window width in pixels.
pub const DEFAULT_WIDTH: u32 = 1080;

/// Default window height in pixels.
pub const DEFAULT_HEIGHT: u32 = 700;

/// Construction-time configuration error.
#[derive(Clone, Copy, Debug, PartialEq, Eq, Structural)]
pub enum ConfigError {
    /// The window dimensions are zero in at least one axis.
    InvalidDimensions,
}

/// Configuration for the application window and rendering behavior.
#[derive(Debug)]
pub struct Config {
    /// Width of the window in pixels.
    pub width: u32,
    /// Height of the window in pixels.
    pub height: u32,
    /// If true, the application renders exactly one frame.
    pub no_loop: bool,
    /// Optional ceiling on the number of frames to render; `None` renders
    /// indefinitely.
    pub frames: Option<u32>,
    /// Controls whether the cursor is visible in the window.
    pub cursor_visible: bool,
    /// Number of leading frames to hand to the persistence worker.
    pub frames_to_save: u32,
    /// Title of the application window.
    pub window_title: String,
}

impl Config {
    /// The dimensions are usable for a window: both axes are positive.
    pub open spec fn dims_valid(self) -> bool {
        self.width > 0 && self.height > 0
    }

    /// The exact byte length a full RGBA frame buffer must have.
    pub open spec fn buffer_len(self) -> nat {
        self.width as nat * self.height as nat * 4
    }

    /// Creates a new configuration with the specified parameters.
    ///
    /// The frame ceiling starts out unset and the title at its default.
    pub fn new(
        width: u32,
        height: u32,
        no_loop: bool,
        cursor_visible: bool,
        frames_to_save: u32,
    ) -> (r: Self)
        ensures
            r.width == width,
            r.height == height,
            r.no_loop == no_loop,
            r.frames is None,
            r.cursor_visible == cursor_visible,
            r.frames_to_save == frames_to_save,
            r.window_title@ == default_title(),
    {
        let title = title_string();
        Self {
            width,
            height,
            no_loop,
            frames: None,
            cursor_visible,
            frames_to_save,
            window_title: title,
        }
    }

    /// Creates a new configuration with just width and height; every other
    /// field keeps its default.
    pub fn with_dims(width: u32, height: u32) -> (r: Self)
        ensures
            r.width == width,
            r.height == height,
            !r.no_loop,
            r.frames is None,
            r.cursor_visible,
            r.frames_to_save == 0,
            r.window_title@ == default_title(),
    {
        Self::new(width, height, false, true, 0)
    }

    /// Returns the width and height as a pair.
    pub fn wh(&self) -> (r: (u32, u32))
        ensures
            r == (self.width, self.height),
    {
        (self.width, self.height)
    }

    /// Sets the number of frames to save and returns the updated config.
    pub fn set_frames_to_save(self, frames_to_save: u32) -> (r: Self)
        ensures
            r == (Self { frames_to_save, ..self }),
    {
        Self { frames_to_save, ..self }
    }

    /// Sets cursor visibility and returns the updated config.
    pub fn set_cursor_visibility(self, cursor_visible: bool) -> (r: Self)
        ensures
            r == (Self { cursor_visible, ..self }),
    {
        Self { cursor_visible, ..self }
    }

    /// Requests a single-frame run and returns the updated config.
    pub fn no_loop(self) -> (r: Self)
        ensures
            r == (Self { no_loop: true, ..self }),
    {
        Self { no_loop: true, ..self }
    }

    /// Sets the frame ceiling and returns the updated config.
    pub fn set_frames(self, frames: u32) -> (r: Self)
        ensures
            r == (Self { frames: Some(frames), ..self }),
    {
        Self { frames: Some(frames), ..self }
    }

    /// Sets the window title and returns the updated config.
    pub fn set_title(self, title: &str) -> (r: Self)
        ensures
            r.window_title@ == title@,
            r.width == self.width,
            r.height == self.height,
            r.no_loop == self.no_loop,
            r.frames == self.frames,
            r.cursor_visible == self.cursor_visible,
            r.frames_to_save == self.frames_to_save,
    {
        Self { window_title: title.to_owned(), ..self }
    }
}

impl Default for Config {
    /// The default configuration: default dimensions, free-running loop,
    /// visible cursor, no frames saved.
    fn default() -> (r: Self)
        ensures
            r.width == DEFAULT_WIDTH,
            r.height == DEFAULT_HEIGHT,
            !r.no_loop,
            r.frames is None,
            r.cursor_visible,
            r.frames_to_save == 0,
            r.window_title@ == default_title(),
    {
        Config::new(DEFAULT_WIDTH, DEFAULT_HEIGHT, false, true, 0)
    }
}

/// The default window title.
pub open spec fn default_title() -> Seq<char> {
    "Artimate"@
}

/// Returns the default window title as an owned string.
pub fn title_string() -> (r: String)
    ensures
        r@ == default_title(),
{
    let s = "Artimate";
    s.to_owned()
}

} // verus!
