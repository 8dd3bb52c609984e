//! The screen: window state, the screen-vs-render resolution mapping, the
//! offscreen surface's lifecycle, and the per-frame draw protocol.
//!
//! Every operation is pure state logic. The backend calls an operation needs
//! are appended, in order, to [`Screen::commands`]; an unverified shim drains
//! that queue and performs the real calls. Where an operation depends on what
//! the backend reports (the window size after a fullscreen toggle, whether the
//! window is ready), the caller performs the backend query and passes the
//! answer in.

use vstd::prelude::*;
use vstd::string::*;
use vstd::arithmetic::mul::{lemma_mul_nonnegative, lemma_mul_upper_bound};
use vstd::arithmetic::div_mod::lemma_div_pos_is_pos;
use crate::backend::{BackendCommand, Color, Rect};
use crate::overlay::{DebugMessage, DebugOverlay, MAX_MESSAGES, live_count, ticked};
use crate::surface::OffscreenSurface;

verus! {

/// Default screen width of a fresh screen.
pub const DEF_SCREEN_WIDTH: i32 = 1280;

/// Default screen height of a fresh screen.
pub const DEF_SCREEN_HEIGHT: i32 = 720;

/// Default target framerate of a fresh screen.
pub const DEF_FRAMERATE: i32 = 60;

/// How many presented frames an error notice stays in the overlay: about a
/// second at the default framerate.
pub const ERROR_MESSAGE_TTL: i32 = 60;

/// The backend log verbosity the window is opened with.
pub const LOG_VERBOSITY: i32 = 7;

/// The text line spacing the window is opened with.
pub const TEXT_LINE_SPACING: i32 = 9;

/// The window's display mode. The modes are mutually exclusive and change only
/// by an explicit toggle, never by backend polling.
#[derive(Clone, Copy, Debug, PartialEq, Eq, Structural)]
pub enum WindowState {
    Windowed,
    Fullscreen,
    Borderless,
}

/// A width and height in pixels; always non-negative. Used both for the
/// physical window size and for the internal render size.
#[derive(Clone, Copy, Debug, PartialEq, Eq, Structural)]
pub struct Resolution {
    pub width: i32,
    pub height: i32,
}

/// The positive scale factor mapping screen resolution to render resolution,
/// held as a rational: each render dimension is
/// `floor(screen_dimension * num / den)`.
#[derive(Clone, Copy, Debug, PartialEq, Eq, Structural)]
pub struct RenderRatio {
    pub num: u32,
    pub den: u32,
}

impl RenderRatio {
    /// A ratio is a positive fraction.
    pub open spec fn wf(self) -> bool {
        self.num > 0 && self.den > 0
    }

    /// The identity ratio: render resolution equals screen resolution.
    pub fn one() -> (r: RenderRatio)
        ensures
            r == (RenderRatio { num: 1, den: 1 }),
    {
        RenderRatio { num: 1, den: 1 }
    }
}

/// One screen dimension scaled by the render ratio, floored.
pub open spec fn scaled(dim: int, ratio: RenderRatio) -> int {
    (dim * (ratio.num as int)) / (ratio.den as int)
}

/// Whether a frame's draw pass is open: `start_draw` moves Idle to Drawing,
/// `end_draw` moves back.
#[derive(Clone, Copy, Debug, PartialEq, Eq, Structural)]
pub enum FrameState {
    Idle,
    Drawing,
}

/// What a screen operation can fail with.
#[derive(Clone, Copy, Debug, PartialEq, Eq, Structural)]
pub enum ScreenError {
    /// A frame operation ran with no offscreen surface allocated.
    RenderTextureDoesntExist,
    /// A surface (re)allocation was asked for a width or height of zero.
    InvalidSurfaceSize,
}

impl ScreenError {
    /// The overlay notice for this error.
    pub open spec fn text_spec(self) -> Seq<char> {
        match self {
            ScreenError::RenderTextureDoesntExist => "render texture does not exist"@,
            ScreenError::InvalidSurfaceSize => "invalid render surface size"@,
        }
    }

    /// The overlay notice for this error.
    pub fn text(self) -> (r: String)
        ensures
            r@ == self.text_spec(),
    {
        match self {
            ScreenError::RenderTextureDoesntExist => String::from_str(
                "render texture does not exist",
            ),
            ScreenError::InvalidSurfaceSize => String::from_str("invalid render surface size"),
        }
    }
}

/// The window/render-surface orchestrator.
pub struct Screen {
    /// The physical window resolution.
    pub screen: Resolution,
    /// The window's display mode.
    pub window_state: WindowState,
    /// The internal render resolution: `screen` scaled by `render_ratio`.
    pub render: Resolution,
    /// The scale factor from `screen` to `render`.
    pub render_ratio: RenderRatio,
    /// The live offscreen surface, if one is allocated. At most one exists at
    /// a time and its size always equals `render`.
    pub render_texture: Option<OffscreenSurface>,
    /// Whether the backend window has been opened and not yet closed.
    pub backend_initialized: bool,
    /// The color each frame is cleared to.
    pub background_color: Color,
    /// The target framerate.
    pub framerate: i32,
    /// The debug overlay drawn atop the final frame.
    pub debug: DebugOverlay,
    /// Whether a frame's draw pass is open.
    pub frame: FrameState,
    /// The backend calls recorded so far, oldest first. The shim drains and
    /// performs them after each operation.
    pub commands: Vec<BackendCommand>,
}

impl Screen {
    /// The screen's invariant: resolutions are non-negative, the render
    /// resolution is the screen resolution scaled by the ratio, a live surface
    /// exists only while the backend is initialized and matches the render
    /// size exactly, a draw pass is open only while a surface exists, and the
    /// overlay is well formed.
    pub open spec fn wf(self) -> bool {
        &&& self.screen.width >= 0 && self.screen.height >= 0
        &&& self.render.width >= 0 && self.render.height >= 0
        &&& self.render_ratio.wf()
        &&& self.render.width as int == scaled(self.screen.width as int, self.render_ratio)
        &&& self.render.height as int == scaled(self.screen.height as int, self.render_ratio)
        &&& match self.render_texture {
            Some(t) => {
                &&& self.backend_initialized
                &&& t.width == self.render.width
                &&& t.height == self.render.height
                &&& t.width > 0
                &&& t.height > 0
            },
            None => true,
        }
        &&& (self.frame is Drawing ==> self.render_texture is Some)
        &&& self.debug.wf()
    }
}

/// The backend calls a surface reallocation makes: the old surface, if any, is
/// released first; a new one is allocated only while the backend is
/// initialized and the size is not degenerate.
pub open spec fn realloc_cmds(had_surface: bool, initialized: bool, rw: i32, rh: i32) -> Seq<
    BackendCommand,
> {
    let unload: Seq<BackendCommand> = if had_surface {
        seq![BackendCommand::ReleaseSurface]
    } else {
        Seq::empty()
    };
    if initialized && rw > 0 && rh > 0 {
        unload.push(BackendCommand::AllocateSurface { width: rw, height: rh })
    } else {
        unload
    }
}

/// The surface a reallocation leaves behind: a fresh one at the render size on
/// success, none otherwise.
pub open spec fn realloc_surface(initialized: bool, rw: i32, rh: i32) -> Option<OffscreenSurface> {
    if initialized && rw > 0 && rh > 0 {
        Some(OffscreenSurface { width: rw, height: rh })
    } else {
        None
    }
}

/// A reallocation fails exactly when the backend is initialized but the asked
/// size is degenerate; while uninitialized no allocation is attempted.
pub open spec fn realloc_result(initialized: bool, rw: i32, rh: i32) -> Result<(), ScreenError> {
    if !initialized || (rw > 0 && rh > 0) {
        Ok(())
    } else {
        Err(ScreenError::InvalidSurfaceSize)
    }
}

/// The toggled window state for the fullscreen toggle: anything but Fullscreen
/// becomes Fullscreen, Fullscreen becomes Windowed.
pub open spec fn fullscreen_toggled(s: WindowState) -> WindowState {
    if s is Fullscreen {
        WindowState::Windowed
    } else {
        WindowState::Fullscreen
    }
}

/// The toggled window state for the borderless toggle: anything but Borderless
/// becomes Borderless, Borderless becomes Windowed.
pub open spec fn borderless_toggled(s: WindowState) -> WindowState {
    if s is Borderless {
        WindowState::Windowed
    } else {
        WindowState::Borderless
    }
}

/// The error notice `e` appended to the overlay: one message with the error's
/// text and the error ttl when there was room, the overlay unchanged when it
/// was full.
pub open spec fn error_logged(
    pre: Seq<DebugMessage>,
    post: Seq<DebugMessage>,
    e: ScreenError,
) -> bool {
    if pre.len() < MAX_MESSAGES {
        &&& post.len() == pre.len() + 1
        &&& post.subrange(0, pre.len() as int) == pre
        &&& post.last().text@ == e.text_spec()
        &&& post.last().ttl == ERROR_MESSAGE_TTL
    } else {
        post == pre
    }
}

/// The overlay text draws of one frame, in message order: each surviving
/// message (ttl still positive after the decrement) is drawn bottom-up, 8
/// units from the bottom of the render surface and 10 units above the
/// survivor before it, with an 8-unit font, 1-unit spacing, in black.
pub open spec fn overlay_draw_cmds(msgs: Seq<DebugMessage>, render_height: int) -> Seq<
    BackendCommand,
>
    decreases msgs.len(),
{
    if msgs.len() == 0 {
        Seq::empty()
    } else {
        let rest = overlay_draw_cmds(msgs.drop_last(), render_height);
        let m = msgs.last();
        if m.ttl > 1 {
            rest.push(
                BackendCommand::DrawText {
                    text: m.text,
                    x: 0,
                    y: ((render_height - 8 - 10 * live_count(msgs.drop_last())) as i32),
                    size: 8,
                    spacing: 1,
                    color: Color { r: 0, g: 0, b: 0, a: 255 },
                },
            )
        } else {
            rest
        }
    }
}

/// Everything `end_draw` sends the backend for one frame, in order: the debug
/// panel if enabled, the surviving overlay messages, the end of the surface
/// pass, and the window-level pass that blits the surface onto the window —
/// with the source rectangle's height negated against the render height (the
/// vertical flip) and the destination covering the full screen, untinted and
/// unrotated — and presents.
pub open spec fn end_frame_cmds(
    msgs: Seq<DebugMessage>,
    display: bool,
    render: Resolution,
    screen: Resolution,
) -> Seq<BackendCommand> {
    (if display {
        seq![BackendCommand::DrawDebugPanel]
    } else {
        Seq::empty()
    }) + overlay_draw_cmds(msgs, render.height as int) + seq![
        BackendCommand::EndSurfaceDraw,
        BackendCommand::BeginFrame,
        BackendCommand::DrawSurface {
            source: Rect {
                x: 0,
                y: 0,
                width: render.width,
                height: ((0 - render.height as int) as i32),
            },
            dest: Rect { x: 0, y: 0, width: screen.width, height: screen.height },
            origin_x: 0,
            origin_y: 0,
            rotation: 0,
            tint: Color { r: 255, g: 255, b: 255, a: 255 },
        },
        BackendCommand::EndFrame,
    ]
}

/// What `set_resolution(width, height)` does to a screen: the screen size is
/// taken as given, the render size is re-derived from the unchanged ratio, the
/// window is resized if the backend is initialized, and the surface is
/// reallocated (the old one always released, a new one allocated exactly when
/// initialized and the new render size is not degenerate). Nothing else
/// changes, and the call fails exactly when the reallocation does.
pub open spec fn set_resolution_post(
    pre: Screen,
    width: i32,
    height: i32,
    post: Screen,
    r: Result<(), ScreenError>,
) -> bool {
    let rw = scaled(width as int, pre.render_ratio) as i32;
    let rh = scaled(height as int, pre.render_ratio) as i32;
    &&& post.screen == (Resolution { width, height })
    &&& post.render == (Resolution { width: rw, height: rh })
    &&& post.window_state == pre.window_state
    &&& post.render_ratio == pre.render_ratio
    &&& post.backend_initialized == pre.backend_initialized
    &&& post.background_color == pre.background_color
    &&& post.framerate == pre.framerate
    &&& post.debug == pre.debug
    &&& post.frame == pre.frame
    &&& post.render_texture == realloc_surface(pre.backend_initialized, rw, rh)
    &&& post.commands@ == pre.commands@ + (if pre.backend_initialized {
        seq![BackendCommand::SetWindowSize { width, height }]
    } else {
        Seq::empty()
    }) + realloc_cmds(pre.render_texture is Some, pre.backend_initialized, rw, rh)
    &&& r == realloc_result(pre.backend_initialized, rw, rh)
}

/// What `set_render_scale(ratio)` does to a screen: the ratio is replaced, the
/// render size is re-derived from the unchanged screen size, and the surface
/// is reallocated. Nothing else changes, and the call fails exactly when the
/// reallocation does.
pub open spec fn set_render_scale_post(
    pre: Screen,
    ratio: RenderRatio,
    post: Screen,
    r: Result<(), ScreenError>,
) -> bool {
    let rw = scaled(pre.screen.width as int, ratio) as i32;
    let rh = scaled(pre.screen.height as int, ratio) as i32;
    &&& post.screen == pre.screen
    &&& post.window_state == pre.window_state
    &&& post.render == (Resolution { width: rw, height: rh })
    &&& post.render_ratio == ratio
    &&& post.backend_initialized == pre.backend_initialized
    &&& post.background_color == pre.background_color
    &&& post.framerate == pre.framerate
    &&& post.debug == pre.debug
    &&& post.frame == pre.frame
    &&& post.render_texture == realloc_surface(pre.backend_initialized, rw, rh)
    &&& post.commands@ == pre.commands@ + realloc_cmds(
        pre.render_texture is Some,
        pre.backend_initialized,
        rw,
        rh,
    )
    &&& r == realloc_result(pre.backend_initialized, rw, rh)
}

/// What a window-state toggle does to a screen: the state becomes `new_state`,
/// the screen size is resynchronized to what the backend reported after its
/// toggle, the render size is re-derived, and the surface is reallocated.
/// Nothing else changes, and the call fails exactly when the reallocation
/// does.
pub open spec fn toggle_post(
    pre: Screen,
    new_state: WindowState,
    reported_width: i32,
    reported_height: i32,
    post: Screen,
    r: Result<(), ScreenError>,
) -> bool {
    let rw = scaled(reported_width as int, pre.render_ratio) as i32;
    let rh = scaled(reported_height as int, pre.render_ratio) as i32;
    &&& post.window_state == new_state
    &&& post.screen == (Resolution { width: reported_width, height: reported_height })
    &&& post.render == (Resolution { width: rw, height: rh })
    &&& post.render_ratio == pre.render_ratio
    &&& post.backend_initialized == pre.backend_initialized
    &&& post.background_color == pre.background_color
    &&& post.framerate == pre.framerate
    &&& post.debug == pre.debug
    &&& post.frame == pre.frame
    &&& post.render_texture == realloc_surface(pre.backend_initialized, rw, rh)
    &&& post.commands@ == pre.commands@ + realloc_cmds(
        pre.render_texture is Some,
        pre.backend_initialized,
        rw,
        rh,
    )
    &&& r == realloc_result(pre.backend_initialized, rw, rh)
}

/// What `init(title)` does to a screen: the backend window is opened at the
/// current screen size with the given title, the verbosity, framerate and text
/// spacing are set, the backend is marked initialized, and the first surface
/// is allocated at the current render size. Nothing else changes, and the call
/// fails exactly when the allocation does.
pub open spec fn init_post(
    pre: Screen,
    title: String,
    post: Screen,
    r: Result<(), ScreenError>,
) -> bool {
    &&& post.backend_initialized
    &&& post.screen == pre.screen
    &&& post.window_state == pre.window_state
    &&& post.render == pre.render
    &&& post.render_ratio == pre.render_ratio
    &&& post.background_color == pre.background_color
    &&& post.framerate == pre.framerate
    &&& post.debug == pre.debug
    &&& post.frame == pre.frame
    &&& post.render_texture == realloc_surface(true, pre.render.width, pre.render.height)
    &&& post.commands@ == pre.commands@ + seq![
        BackendCommand::SetLogVerbosity { level: LOG_VERBOSITY },
        BackendCommand::OpenWindow {
            width: pre.screen.width,
            height: pre.screen.height,
            title,
        },
        BackendCommand::SetTargetFps { fps: pre.framerate },
        BackendCommand::SetTextLineSpacing { spacing: TEXT_LINE_SPACING },
    ] + realloc_cmds(false, true, pre.render.width, pre.render.height)
    &&& r == realloc_result(true, pre.render.width, pre.render.height)
}

/// What `close` does to a screen: the surface, if any, is released, the window
/// is closed, and the backend is marked uninitialized. Nothing else changes.
pub open spec fn close_post(pre: Screen, post: Screen) -> bool {
    &&& !post.backend_initialized
    &&& post.render_texture is None
    &&& post.screen == pre.screen
    &&& post.window_state == pre.window_state
    &&& post.render == pre.render
    &&& post.render_ratio == pre.render_ratio
    &&& post.background_color == pre.background_color
    &&& post.framerate == pre.framerate
    &&& post.debug == pre.debug
    &&& post.frame == pre.frame
    &&& post.commands@ == pre.commands@ + (if pre.render_texture is Some {
        seq![BackendCommand::ReleaseSurface]
    } else {
        Seq::empty()
    }) + seq![BackendCommand::CloseWindow]
}

/// What `start_draw` does to a screen. With a surface present the frame moves
/// to Drawing and the surface's pass begins and is cleared to the background
/// color. With none the failure is reported on the overlay and nothing else —
/// window state, resolutions, surface, commands — changes.
pub open spec fn start_draw_post(pre: Screen, post: Screen) -> bool {
    &&& post.screen == pre.screen
    &&& post.window_state == pre.window_state
    &&& post.render == pre.render
    &&& post.render_ratio == pre.render_ratio
    &&& post.render_texture == pre.render_texture
    &&& post.backend_initialized == pre.backend_initialized
    &&& post.background_color == pre.background_color
    &&& post.framerate == pre.framerate
    &&& post.debug.display == pre.debug.display
    &&& if pre.render_texture is Some {
        &&& post.frame is Drawing
        &&& post.debug.messages == pre.debug.messages
        &&& post.commands@ == pre.commands@ + seq![
            BackendCommand::BeginSurfaceDraw,
            BackendCommand::ClearBackground { color: pre.background_color },
        ]
    } else {
        &&& post.frame == pre.frame
        &&& error_logged(
            pre.debug.messages@,
            post.debug.messages@,
            ScreenError::RenderTextureDoesntExist,
        )
        &&& post.commands@ == pre.commands@
    }
}

/// What `end_draw` does to a screen. With a surface present: the overlay is
/// advanced one frame (every ttl decremented, survivors kept in order), the
/// frame's backend calls — panel, overlay text, end of surface pass, flipped
/// blit, present — are appended, and the frame returns to Idle. With none the
/// failure is reported on the overlay and nothing else changes.
pub open spec fn end_draw_post(pre: Screen, post: Screen) -> bool {
    &&& post.screen == pre.screen
    &&& post.window_state == pre.window_state
    &&& post.render == pre.render
    &&& post.render_ratio == pre.render_ratio
    &&& post.render_texture == pre.render_texture
    &&& post.backend_initialized == pre.backend_initialized
    &&& post.background_color == pre.background_color
    &&& post.framerate == pre.framerate
    &&& post.debug.display == pre.debug.display
    &&& if pre.render_texture is Some {
        &&& post.frame is Idle
        &&& post.debug.messages@ == ticked(pre.debug.messages@)
        &&& post.commands@ == pre.commands@ + end_frame_cmds(
            pre.debug.messages@,
            pre.debug.display,
            pre.render,
            pre.screen,
        )
    } else {
        &&& post.frame == pre.frame
        &&& error_logged(
            pre.debug.messages@,
            post.debug.messages@,
            ScreenError::RenderTextureDoesntExist,
        )
        &&& post.commands@ == pre.commands@
    }
}

/// The scaled dimension of a non-negative dimension under a positive ratio is
/// non-negative.
pub proof fn lemma_scaled_nonneg(dim: int, ratio: RenderRatio)
    requires
        dim >= 0,
        ratio.wf(),
    ensures
        scaled(dim, ratio) >= 0,
{
    lemma_mul_nonnegative(dim, ratio.num as int);
    lemma_div_pos_is_pos(dim * (ratio.num as int), ratio.den as int);
}

impl Screen {
    /// A fresh screen: the default resolution on both sides, the identity
    /// ratio, windowed, no surface, backend uninitialized, dark-gray
    /// background, the default framerate, an empty overlay and an empty
    /// command queue.
    pub fn new() -> (s: Screen)
        ensures
            s.wf(),
            s.screen == (Resolution { width: DEF_SCREEN_WIDTH, height: DEF_SCREEN_HEIGHT }),
            s.window_state is Windowed,
            s.render == (Resolution { width: DEF_SCREEN_WIDTH, height: DEF_SCREEN_HEIGHT }),
            s.render_ratio == (RenderRatio { num: 1, den: 1 }),
            s.render_texture is None,
            !s.backend_initialized,
            s.background_color == (Color { r: 80, g: 80, b: 80, a: 255 }),
            s.framerate == DEF_FRAMERATE,
            !s.debug.display,
            s.debug.messages@ == Seq::<DebugMessage>::empty(),
            s.frame is Idle,
            s.commands@ == Seq::<BackendCommand>::empty(),
    {
        Screen {
            screen: Resolution { width: DEF_SCREEN_WIDTH, height: DEF_SCREEN_HEIGHT },
            window_state: WindowState::Windowed,
            render: Resolution { width: DEF_SCREEN_WIDTH, height: DEF_SCREEN_HEIGHT },
            render_ratio: RenderRatio::one(),
            render_texture: None,
            backend_initialized: false,
            background_color: Color::dark_gray(),
            framerate: DEF_FRAMERATE,
            debug: DebugOverlay::new(),
            frame: FrameState::Idle,
            commands: Vec::new(),
        }
    }

    /// One screen dimension scaled by the ratio, floored.
    fn scale_dim(dim: i32, ratio: RenderRatio) -> (r: i32)
        requires
            dim >= 0,
            ratio.wf(),
            scaled(dim as int, ratio) <= i32::MAX as int,
        ensures
            r as int == scaled(dim as int, ratio),
            r >= 0,
    {
        proof {
            lemma_mul_upper_bound(dim as int, i32::MAX as int, ratio.num as int, u32::MAX as int);
            lemma_scaled_nonneg(dim as int, ratio);
        }
        let wide: u64 = (dim as u64) * (ratio.num as u64);
        let q: u64 = wide / (ratio.den as u64);
        q as i32
    }

    /// Releases the current surface, if any, and allocates a fresh one at the
    /// current render size while the backend is initialized. The failure of a
    /// degenerate size is returned, and the screen then holds no surface.
    fn update_render(&mut self) -> (r: Result<(), ScreenError>)
        ensures
            final(self).render_texture == realloc_surface(
                old(self).backend_initialized,
                old(self).render.width,
                old(self).render.height,
            ),
            final(self).commands@ == old(self).commands@ + realloc_cmds(
                old(self).render_texture is Some,
                old(self).backend_initialized,
                old(self).render.width,
                old(self).render.height,
            ),
            r == realloc_result(
                old(self).backend_initialized,
                old(self).render.width,
                old(self).render.height,
            ),
            final(self).screen == old(self).screen,
            final(self).window_state == old(self).window_state,
            final(self).render == old(self).render,
            final(self).render_ratio == old(self).render_ratio,
            final(self).backend_initialized == old(self).backend_initialized,
            final(self).background_color == old(self).background_color,
            final(self).framerate == old(self).framerate,
            final(self).debug == old(self).debug,
            final(self).frame == old(self).frame,
    {
        let ghost pre = *self;
        if self.render_texture.is_some() {
            let t = self.render_texture.take().unwrap();
            t.unload(&mut self.commands);
        }
        if self.backend_initialized {
            match OffscreenSurface::load(self.render.width, self.render.height, &mut self.commands) {
                Ok(t) => {
                    self.render_texture = Some(t);
                    proof {
                        assert(self.commands@ =~= pre.commands@ + realloc_cmds(
                            pre.render_texture is Some,
                            pre.backend_initialized,
                            pre.render.width,
                            pre.render.height,
                        ));
                    }
                    Ok(())
                },
                Err(e) => {
                    proof {
                        assert(self.commands@ =~= pre.commands@ + realloc_cmds(
                            pre.render_texture is Some,
                            pre.backend_initialized,
                            pre.render.width,
                            pre.render.height,
                        ));
                    }
                    Err(e)
                },
            }
        } else {
            proof {
                assert(self.commands@ =~= pre.commands@ + realloc_cmds(
                    pre.render_texture is Some,
                    pre.backend_initialized,
                    pre.render.width,
                    pre.render.height,
                ));
            }
            Ok(())
        }
    }

    /// Opens the backend window at the current screen size with the given
    /// title, applies the framerate and text settings, marks the backend
    /// initialized, and allocates the first surface. Must be called exactly
    /// once, before any frame operation.
    pub fn init(&mut self, title: String) -> (r: Result<(), ScreenError>)
        requires
            old(self).wf(),
            !old(self).backend_initialized,
            old(self).frame is Idle,
        ensures
            final(self).wf(),
            init_post(*old(self), title, *final(self), r),
    {
        let ghost pre = *self;
        self.commands.push(BackendCommand::SetLogVerbosity { level: LOG_VERBOSITY });
        self.commands.push(
            BackendCommand::OpenWindow {
                width: self.screen.width,
                height: self.screen.height,
                title,
            },
        );
        self.commands.push(BackendCommand::SetTargetFps { fps: self.framerate });
        self.commands.push(BackendCommand::SetTextLineSpacing { spacing: TEXT_LINE_SPACING });
        self.backend_initialized = true;
        let r = self.update_render();
        proof {
            assert(self.commands@ =~= pre.commands@ + seq![
                BackendCommand::SetLogVerbosity { level: LOG_VERBOSITY },
                BackendCommand::OpenWindow {
                    width: pre.screen.width,
                    height: pre.screen.height,
                    title,
                },
                BackendCommand::SetTargetFps { fps: pre.framerate },
                BackendCommand::SetTextLineSpacing { spacing: TEXT_LINE_SPACING },
            ] + realloc_cmds(false, true, pre.render.width, pre.render.height));
        }
        r
    }

    /// Releases the surface, if any, closes the backend window, and marks the
    /// backend uninitialized. Safe to call on a screen that was never
    /// initialized.
    pub fn close(&mut self)
        requires
            old(self).wf(),
            old(self).frame is Idle,
        ensures
            final(self).wf(),
            close_post(*old(self), *final(self)),
    {
        let ghost pre = *self;
        if self.render_texture.is_some() {
            let t = self.render_texture.take().unwrap();
            t.unload(&mut self.commands);
        }
        self.commands.push(BackendCommand::CloseWindow);
        self.backend_initialized = false;
        proof {
            assert(self.commands@ =~= pre.commands@ + (if pre.render_texture is Some {
                seq![BackendCommand::ReleaseSurface]
            } else {
                Seq::<BackendCommand>::empty()
            }) + seq![BackendCommand::CloseWindow]);
        }
    }

    /// Whether the window is up: false while the backend is uninitialized,
    /// otherwise whatever the backend reported. The caller queries the backend
    /// and passes the answer in.
    pub fn window_ready(&self, backend_ready: bool) -> (r: bool)
        ensures
            r == (self.backend_initialized && backend_ready),
    {
        if self.backend_initialized {
            backend_ready
        } else {
            false
        }
    }

    /// Flips the window state between Fullscreen and Windowed (a true toggle:
    /// from Borderless it lands on Fullscreen), resynchronizes the screen size
    /// to what the backend reported after its toggle, re-derives the render
    /// size, and reallocates the surface. The caller performs the backend's
    /// fullscreen toggle first and passes the window size the backend then
    /// reports.
    pub fn toggle_fullscreen(&mut self, reported_width: i32, reported_height: i32) -> (r: Result<
        (),
        ScreenError,
    >)
        requires
            old(self).wf(),
            old(self).frame is Idle,
            old(self).backend_initialized,
            reported_width >= 0,
            reported_height >= 0,
            scaled(reported_width as int, old(self).render_ratio) <= i32::MAX as int,
            scaled(reported_height as int, old(self).render_ratio) <= i32::MAX as int,
        ensures
            final(self).wf(),
            toggle_post(
                *old(self),
                fullscreen_toggled(old(self).window_state),
                reported_width,
                reported_height,
                *final(self),
                r,
            ),
    {
        let new_state = if matches!(self.window_state, WindowState::Fullscreen) {
            WindowState::Windowed
        } else {
            WindowState::Fullscreen
        };
        self.resync(new_state, reported_width, reported_height)
    }

    /// Flips the window state between Borderless and Windowed (a true toggle:
    /// from Fullscreen it lands on Borderless), resynchronizes the screen size
    /// to what the backend reported after its toggle, re-derives the render
    /// size, and reallocates the surface. The caller performs the backend's
    /// borderless toggle first and passes the window size the backend then
    /// reports.
    pub fn toggle_borderless(&mut self, reported_width: i32, reported_height: i32) -> (r: Result<
        (),
        ScreenError,
    >)
        requires
            old(self).wf(),
            old(self).frame is Idle,
            old(self).backend_initialized,
            reported_width >= 0,
            reported_height >= 0,
            scaled(reported_width as int, old(self).render_ratio) <= i32::MAX as int,
            scaled(reported_height as int, old(self).render_ratio) <= i32::MAX as int,
        ensures
            final(self).wf(),
            toggle_post(
                *old(self),
                borderless_toggled(old(self).window_state),
                reported_width,
                reported_height,
                *final(self),
                r,
            ),
    {
        let new_state = if matches!(self.window_state, WindowState::Borderless) {
            WindowState::Windowed
        } else {
            WindowState::Borderless
        };
        self.resync(new_state, reported_width, reported_height)
    }

    /// The shared tail of both toggles: adopt the new window state and the
    /// backend-reported screen size, re-derive the render size, reallocate.
    fn resync(&mut self, new_state: WindowState, width: i32, height: i32) -> (r: Result<
        (),
        ScreenError,
    >)
        requires
            old(self).wf(),
            old(self).frame is Idle,
            old(self).backend_initialized,
            width >= 0,
            height >= 0,
            scaled(width as int, old(self).render_ratio) <= i32::MAX as int,
            scaled(height as int, old(self).render_ratio) <= i32::MAX as int,
        ensures
            final(self).wf(),
            toggle_post(*old(self), new_state, width, height, *final(self), r),
    {
        let ghost pre = *self;
        self.window_state = new_state;
        self.screen.width = width;
        self.screen.height = height;
        self.render.width = Self::scale_dim(width, self.render_ratio);
        self.render.height = Self::scale_dim(height, self.render_ratio);
        let r = self.update_render();
        proof {
            assert(self.commands@ =~= pre.commands@ + realloc_cmds(
                pre.render_texture is Some,
                pre.backend_initialized,
                scaled(width as int, pre.render_ratio) as i32,
                scaled(height as int, pre.render_ratio) as i32,
            ));
        }
        r
    }

    /// Sets the screen resolution, re-derives the render resolution from the
    /// unchanged ratio, resizes the backend window while initialized, and
    /// reallocates the surface — the old surface is always released and a new
    /// one allocated, even when the size did not change.
    pub fn set_resolution(&mut self, width: i32, height: i32) -> (r: Result<(), ScreenError>)
        requires
            old(self).wf(),
            old(self).frame is Idle,
            width >= 0,
            height >= 0,
            scaled(width as int, old(self).render_ratio) <= i32::MAX as int,
            scaled(height as int, old(self).render_ratio) <= i32::MAX as int,
        ensures
            final(self).wf(),
            set_resolution_post(*old(self), width, height, *final(self), r),
    {
        let ghost pre = *self;
        self.screen.width = width;
        self.screen.height = height;
        self.render.width = Self::scale_dim(width, self.render_ratio);
        self.render.height = Self::scale_dim(height, self.render_ratio);
        if self.backend_initialized {
            self.commands.push(BackendCommand::SetWindowSize { width, height });
        }
        let r = self.update_render();
        proof {
            assert(self.commands@ =~= pre.commands@ + (if pre.backend_initialized {
                seq![BackendCommand::SetWindowSize { width, height }]
            } else {
                Seq::<BackendCommand>::empty()
            }) + realloc_cmds(
                pre.render_texture is Some,
                pre.backend_initialized,
                scaled(width as int, pre.render_ratio) as i32,
                scaled(height as int, pre.render_ratio) as i32,
            ));
        }
        r
    }

    /// Sets the render ratio, re-derives the render resolution from the
    /// unchanged screen resolution, and reallocates the surface — the old
    /// surface is always released and a new one allocated, even when the size
    /// did not change.
    pub fn set_render_scale(&mut self, ratio: RenderRatio) -> (r: Result<(), ScreenError>)
        requires
            old(self).wf(),
            old(self).frame is Idle,
            ratio.wf(),
            scaled(old(self).screen.width as int, ratio) <= i32::MAX as int,
            scaled(old(self).screen.height as int, ratio) <= i32::MAX as int,
        ensures
            final(self).wf(),
            set_render_scale_post(*old(self), ratio, *final(self), r),
    {
        let ghost pre = *self;
        self.render_ratio = ratio;
        self.render.width = Self::scale_dim(self.screen.width, ratio);
        self.render.height = Self::scale_dim(self.screen.height, ratio);
        let r = self.update_render();
        proof {
            assert(self.commands@ =~= pre.commands@ + realloc_cmds(
                pre.render_texture is Some,
                pre.backend_initialized,
                scaled(pre.screen.width as int, ratio) as i32,
                scaled(pre.screen.height as int, ratio) as i32,
            ));
        }
        r
    }

    /// Sets the target framerate. The backend must be initialized.
    pub fn set_fps(&mut self, fps: i32)
        requires
            old(self).wf(),
            old(self).backend_initialized,
            old(self).frame is Idle,
        ensures
            final(self).wf(),
            final(self).framerate == fps,
            final(self).commands@ == old(self).commands@.push(
                BackendCommand::SetTargetFps { fps },
            ),
            final(self).screen == old(self).screen,
            final(self).window_state == old(self).window_state,
            final(self).render == old(self).render,
            final(self).render_ratio == old(self).render_ratio,
            final(self).render_texture == old(self).render_texture,
            final(self).backend_initialized == old(self).backend_initialized,
            final(self).background_color == old(self).background_color,
            final(self).debug == old(self).debug,
            final(self).frame == old(self).frame,
    {
        self.framerate = fps;
        self.commands.push(BackendCommand::SetTargetFps { fps });
    }

    /// Begins a frame: with a surface present the frame moves to Drawing, the
    /// surface's draw pass begins, and the surface is cleared to the
    /// background color. With none, the failure is reported on the overlay and
    /// the frame stays Idle with no other change.
    pub fn start_draw(&mut self)
        requires
            old(self).wf(),
            old(self).frame is Idle,
        ensures
            final(self).wf(),
            start_draw_post(*old(self), *final(self)),
    {
        let ghost pre = *self;
        match &self.render_texture {
            Some(t) => {
                t.begin(&mut self.commands);
                self.commands.push(
                    BackendCommand::ClearBackground { color: self.background_color },
                );
                self.frame = FrameState::Drawing;
                proof {
                    assert(self.commands@ =~= pre.commands@ + seq![
                        BackendCommand::BeginSurfaceDraw,
                        BackendCommand::ClearBackground { color: pre.background_color },
                    ]);
                }
            },
            None => {
                self.report(ScreenError::RenderTextureDoesntExist);
            },
        }
    }

    /// Ends a frame: the overlay is advanced one presented frame (each ttl
    /// decremented; survivors drawn bottom-up and kept in order), the
    /// surface's pass ends, and a window-level pass blits the surface onto the
    /// window — the source rectangle's height negated against the render
    /// height, the vertical flip — and presents. With no surface, the failure
    /// is reported on the overlay and nothing else changes.
    pub fn end_draw(&mut self)
        requires
            old(self).wf(),
            old(self).render_texture is Some ==> old(self).frame is Drawing,
        ensures
            final(self).wf(),
            end_draw_post(*old(self), *final(self)),
    {
        let ghost pre = *self;
        if self.render_texture.is_none() {
            self.report(ScreenError::RenderTextureDoesntExist);
            return ;
        }
        let mut frame_cmds: Vec<BackendCommand> = Vec::new();
        if self.debug.display {
            frame_cmds.push(BackendCommand::DrawDebugPanel);
        }
        let ghost panel = frame_cmds@;

        // Advance the overlay: decrement every ttl, keep and draw survivors.
        let n = self.debug.messages.len();
        let mut kept: Vec<DebugMessage> = Vec::new();
        let mut count: usize = 0;
        let mut i: usize = 0;
        while i < n
            invariant
                i <= n,
                n == self.debug.messages@.len(),
                *self == pre,
                pre.wf(),
                count == live_count(pre.debug.messages@.take(i as int)),
                count <= i,
                kept@ == ticked(pre.debug.messages@.take(i as int)),
                kept@.len() == count,
                forall|j: int| 0 <= j < kept@.len() ==> kept@[j].ttl >= 1,
                frame_cmds@ == panel + overlay_draw_cmds(
                    pre.debug.messages@.take(i as int),
                    pre.render.height as int,
                ),
            decreases n - i,
        {
            proof {
                assert(pre.debug.messages@.take(i as int + 1).drop_last()
                    =~= pre.debug.messages@.take(i as int));
                assert(pre.debug.messages@.take(i as int + 1).last()
                    == pre.debug.messages@[i as int]);
            }
            let m = &self.debug.messages[i];
            let new_ttl = m.ttl - 1;
            if new_ttl > 0 {
                let y = self.render.height - 8 - 10 * (count as i32);
                frame_cmds.push(
                    BackendCommand::DrawText {
                        text: m.text.clone(),
                        x: 0,
                        y,
                        size: 8,
                        spacing: 1,
                        color: Color::black(),
                    },
                );
                kept.push(DebugMessage { text: m.text.clone(), ttl: new_ttl });
                count = count + 1;
            }
            i = i + 1;
            proof {
                assert(kept@ =~= ticked(pre.debug.messages@.take(i as int)));
                assert(frame_cmds@ =~= panel + overlay_draw_cmds(
                    pre.debug.messages@.take(i as int),
                    pre.render.height as int,
                ));
            }
        }
        proof {
            assert(pre.debug.messages@.take(n as int) =~= pre.debug.messages@);
        }
        self.debug.messages = kept;

        // End the surface's pass, then blit it to the window and present.
        let t = self.render_texture.as_ref().unwrap();
        t.end(&mut frame_cmds);
        frame_cmds.push(BackendCommand::BeginFrame);
        let src = Rect {
            x: 0,
            y: 0,
            width: self.render.width,
            height: -self.render.height,
        };
        let dst = Rect { x: 0, y: 0, width: self.screen.width, height: self.screen.height };
        frame_cmds.push(
            BackendCommand::DrawSurface {
                source: src,
                dest: dst,
                origin_x: 0,
                origin_y: 0,
                rotation: 0,
                tint: Color::white(),
            },
        );
        frame_cmds.push(BackendCommand::EndFrame);
        self.commands.append(&mut frame_cmds);
        self.frame = FrameState::Idle;
        proof {
            assert(self.commands@ =~= pre.commands@ + end_frame_cmds(
                pre.debug.messages@,
                pre.debug.display,
                pre.render,
                pre.screen,
            ));
        }
    }

    /// Reports a usage-protocol failure on the overlay: the error's notice is
    /// logged with the error ttl (and dropped when the overlay is full).
    fn report(&mut self, e: ScreenError)
        requires
            old(self).wf(),
        ensures
            final(self).wf(),
            error_logged(old(self).debug.messages@, final(self).debug.messages@, e),
            final(self).debug.display == old(self).debug.display,
            final(self).screen == old(self).screen,
            final(self).window_state == old(self).window_state,
            final(self).render == old(self).render,
            final(self).render_ratio == old(self).render_ratio,
            final(self).render_texture == old(self).render_texture,
            final(self).backend_initialized == old(self).backend_initialized,
            final(self).background_color == old(self).background_color,
            final(self).framerate == old(self).framerate,
            final(self).frame == old(self).frame,
            final(self).commands == old(self).commands,
    {
        let ghost pre_msgs = self.debug.messages@;
        self.debug.log(e.text(), ERROR_MESSAGE_TTL);
        proof {
            if pre_msgs.len() < MAX_MESSAGES {
                assert(self.debug.messages@.subrange(0, pre_msgs.len() as int) =~= pre_msgs);
            }
        }
    }
}

} // verus!
