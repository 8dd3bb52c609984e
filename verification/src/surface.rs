//! The offscreen render surface: a GPU-backed render target sized to the
//! screen's render resolution.
//!
//! A value of [`OffscreenSurface`] stands for exactly one live backend render
//! target. The type cannot be copied or cloned, and `unload` consumes it, so a
//! target can never be released twice. `load`/`unload` append the backend's
//! allocate/release calls; `begin`/`end` bracket a draw pass into the target.

use vstd::prelude::*;
use crate::backend::BackendCommand;
use crate::screen::ScreenError;

verus! {

/// One live backend render target of the given size. Both dimensions are
/// positive: `load` refuses degenerate sizes.
#[derive(Debug, PartialEq, Eq, Structural)]
pub struct OffscreenSurface {
    pub width: i32,
    pub height: i32,
}

impl OffscreenSurface {
    /// Allocates a backend render target of exactly the given size, appending
    /// the allocate call. Fails, appending nothing, when either dimension is
    /// not positive.
    pub fn load(width: i32, height: i32, out: &mut Vec<BackendCommand>) -> (r: Result<
        OffscreenSurface,
        ScreenError,
    >)
        ensures
            width > 0 && height > 0 ==> {
                &&& r == Ok::<OffscreenSurface, ScreenError>(OffscreenSurface { width, height })
                &&& final(out)@ == old(out)@.push(BackendCommand::AllocateSurface { width, height })
            },
            !(width > 0 && height > 0) ==> {
                &&& r == Err::<OffscreenSurface, ScreenError>(ScreenError::InvalidSurfaceSize)
                &&& final(out)@ == old(out)@
            },
    {
        if width > 0 && height > 0 {
            out.push(BackendCommand::AllocateSurface { width, height });
            Ok(OffscreenSurface { width, height })
        } else {
            Err(ScreenError::InvalidSurfaceSize)
        }
    }

    /// Releases the backend render target, appending the release call. Takes
    /// the surface by value: a released target cannot be released again.
    pub fn unload(self, out: &mut Vec<BackendCommand>)
        ensures
            final(out)@ == old(out)@.push(BackendCommand::ReleaseSurface),
    {
        out.push(BackendCommand::ReleaseSurface);
    }

    /// Begins a draw pass into this surface: drawing until the matching `end`
    /// lands in the surface's texture rather than the window.
    pub fn begin(&self, out: &mut Vec<BackendCommand>)
        ensures
            final(out)@ == old(out)@.push(BackendCommand::BeginSurfaceDraw),
    {
        out.push(BackendCommand::BeginSurfaceDraw);
    }

    /// Ends this surface's draw pass.
    pub fn end(&self, out: &mut Vec<BackendCommand>)
        ensures
            final(out)@ == old(out)@.push(BackendCommand::EndSurfaceDraw),
    {
        out.push(BackendCommand::EndSurfaceDraw);
    }
}

} // verus!
