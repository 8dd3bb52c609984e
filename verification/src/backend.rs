//! Plain-value descriptions of the calls the graphics backend offers.
//!
//! The backend itself (window creation, GPU render targets, draw calls) lives
//! outside this library. Verified code never calls it: instead each screen
//! operation appends the backend calls it requires, in order, as
//! [`BackendCommand`] values. An unverified shim drains that queue and performs
//! the real calls.

use vstd::prelude::*;

verus! {

/// An RGBA color, eight bits per channel.
#[derive(Clone, Copy, Debug, PartialEq, Eq, Structural)]
pub struct Color {
    pub r: u8,
    pub g: u8,
    pub b: u8,
    pub a: u8,
}

impl Color {
    /// The dark gray a fresh screen clears its frames to.
    pub fn dark_gray() -> (c: Color)
        ensures
            c == (Color { r: 80, g: 80, b: 80, a: 255 }),
    {
        Color { r: 80, g: 80, b: 80, a: 255 }
    }

    /// Pure white, used as the untinted blit tint.
    pub fn white() -> (c: Color)
        ensures
            c == (Color { r: 255, g: 255, b: 255, a: 255 }),
    {
        Color { r: 255, g: 255, b: 255, a: 255 }
    }

    /// Black, used for overlay text.
    pub fn black() -> (c: Color)
        ensures
            c == (Color { r: 0, g: 0, b: 0, a: 255 }),
    {
        Color { r: 0, g: 0, b: 0, a: 255 }
    }
}

/// An axis-aligned rectangle in backend coordinates. A negative `height`
/// selects rows bottom-up, which the backend reads as a vertical flip of the
/// source region.
#[derive(Clone, Copy, Debug, PartialEq, Eq, Structural)]
pub struct Rect {
    pub x: i32,
    pub y: i32,
    pub width: i32,
    pub height: i32,
}

/// One call into the graphics backend, recorded instead of performed.
///
/// The order of commands in a [`crate::screen::Screen`]'s queue is the order in
/// which the shim must perform them.
#[derive(Debug, PartialEq)]
pub enum BackendCommand {
    /// Set the backend's log verbosity level.
    SetLogVerbosity { level: i32 },
    /// Create the application window at the given size with the given title.
    OpenWindow { width: i32, height: i32, title: String },
    /// Set the target framerate.
    SetTargetFps { fps: i32 },
    /// Set the line spacing used when the backend lays out text.
    SetTextLineSpacing { spacing: i32 },
    /// Close the application window.
    CloseWindow,
    /// Resize the application window.
    SetWindowSize { width: i32, height: i32 },
    /// Allocate the offscreen render target at the given size.
    AllocateSurface { width: i32, height: i32 },
    /// Release the offscreen render target.
    ReleaseSurface,
    /// Begin a draw pass that renders into the offscreen surface.
    BeginSurfaceDraw,
    /// End the offscreen surface's draw pass.
    EndSurfaceDraw,
    /// Clear the current draw target to a color.
    ClearBackground { color: Color },
    /// Begin a window-level draw pass.
    BeginFrame,
    /// End the window-level draw pass and present the frame.
    EndFrame,
    /// Blit the offscreen surface's texture onto the window: `source` in
    /// surface coordinates, `dest` in window coordinates.
    DrawSurface {
        source: Rect,
        dest: Rect,
        origin_x: i32,
        origin_y: i32,
        rotation: i32,
        tint: Color,
    },
    /// Draw a line of text at a position, with a font size and letter spacing.
    DrawText { text: String, x: i32, y: i32, size: i32, spacing: i32, color: Color },
    /// Render the debug display panel.
    DrawDebugPanel,
}

} // verus!
