//! The library's laws: properties that relate several screen operations,
//! stated over the same spec functions the operations' contracts use and
//! proved once and for all.

use vstd::prelude::*;
use crate::backend::{BackendCommand, Color, Rect};
use crate::overlay::{DebugMessage, live_count, ticked};
use crate::screen::{
    RenderRatio, Screen, ScreenError, WindowState, borderless_toggled, end_draw_post,
    end_frame_cmds, fullscreen_toggled, overlay_draw_cmds, realloc_cmds, scaled,
    set_render_scale_post, set_resolution_post, toggle_post,
};
use crate::surface::OffscreenSurface;

verus! {

/// How many surface allocations a command sequence asks the backend for.
pub open spec fn allocate_count(s: Seq<BackendCommand>) -> int
    decreases s.len(),
{
    if s.len() == 0 {
        0
    } else {
        allocate_count(s.drop_last()) + if s.last() is AllocateSurface {
            1int
        } else {
            0int
        }
    }
}

/// How many surface releases a command sequence asks the backend for.
pub open spec fn release_count(s: Seq<BackendCommand>) -> int
    decreases s.len(),
{
    if s.len() == 0 {
        0
    } else {
        release_count(s.drop_last()) + if s.last() is ReleaseSurface {
            1int
        } else {
            0int
        }
    }
}

/// How many surface blits a command sequence asks the backend for.
pub open spec fn blit_count(s: Seq<BackendCommand>) -> int
    decreases s.len(),
{
    if s.len() == 0 {
        0
    } else {
        blit_count(s.drop_last()) + if s.last() is DrawSurface {
            1int
        } else {
            0int
        }
    }
}

/// All three counts add up over concatenation.
pub proof fn lemma_counts_concat(a: Seq<BackendCommand>, b: Seq<BackendCommand>)
    ensures
        allocate_count(a + b) == allocate_count(a) + allocate_count(b),
        release_count(a + b) == release_count(a) + release_count(b),
        blit_count(a + b) == blit_count(a) + blit_count(b),
    decreases b.len(),
{
    if b.len() == 0 {
        assert(a + b =~= a);
    } else {
        assert((a + b).drop_last() =~= a + b.drop_last());
        assert((a + b).last() == b.last());
        lemma_counts_concat(a, b.drop_last());
    }
}

/// The counts of a one-command sequence.
pub proof fn lemma_counts_singleton(c: BackendCommand)
    ensures
        allocate_count(seq![c]) == (if c is AllocateSurface {
            1int
        } else {
            0int
        }),
        release_count(seq![c]) == (if c is ReleaseSurface {
            1int
        } else {
            0int
        }),
        blit_count(seq![c]) == (if c is DrawSurface {
            1int
        } else {
            0int
        }),
{
    assert(allocate_count(Seq::<BackendCommand>::empty()) == 0);
    assert(release_count(Seq::<BackendCommand>::empty()) == 0);
    assert(blit_count(Seq::<BackendCommand>::empty()) == 0);
    assert(seq![c].drop_last() =~= Seq::<BackendCommand>::empty());
    assert(seq![c].last() == c);
}

/// A reallocation releases exactly the surface that existed and allocates
/// exactly one fresh surface exactly when the allocation can succeed; it
/// never blits.
pub proof fn lemma_realloc_cmds_counts(had: bool, init: bool, rw: i32, rh: i32)
    ensures
        release_count(realloc_cmds(had, init, rw, rh)) == (if had {
            1int
        } else {
            0int
        }),
        allocate_count(realloc_cmds(had, init, rw, rh)) == (if init && rw > 0 && rh > 0 {
            1int
        } else {
            0int
        }),
        blit_count(realloc_cmds(had, init, rw, rh)) == 0,
{
    assert(allocate_count(Seq::<BackendCommand>::empty()) == 0);
    assert(release_count(Seq::<BackendCommand>::empty()) == 0);
    assert(blit_count(Seq::<BackendCommand>::empty()) == 0);
    let unload: Seq<BackendCommand> = if had {
        seq![BackendCommand::ReleaseSurface]
    } else {
        Seq::empty()
    };
    if had {
        lemma_counts_singleton(BackendCommand::ReleaseSurface);
    }
    if init && rw > 0 && rh > 0 {
        let all = unload.push(BackendCommand::AllocateSurface { width: rw, height: rh });
        assert(all.drop_last() =~= unload);
        assert(all.last() == BackendCommand::AllocateSurface { width: rw, height: rh });
    }
}

/// Overlay text draws never touch the surface: no allocation, release or blit
/// hides among them.
pub proof fn lemma_overlay_cmds_counts(msgs: Seq<DebugMessage>, render_height: int)
    ensures
        allocate_count(overlay_draw_cmds(msgs, render_height)) == 0,
        release_count(overlay_draw_cmds(msgs, render_height)) == 0,
        blit_count(overlay_draw_cmds(msgs, render_height)) == 0,
    decreases msgs.len(),
{
    if msgs.len() > 0 {
        lemma_overlay_cmds_counts(msgs.drop_last(), render_height);
        let rest = overlay_draw_cmds(msgs.drop_last(), render_height);
        let whole = overlay_draw_cmds(msgs, render_height);
        if msgs.last().ttl > 1 {
            assert(whole.drop_last() =~= rest);
        }
    }
}

/// Setting the resolution and then the render scale, while initialized with a
/// live surface, leaves the surface allocated at exactly the scaled size —
/// `(floor(w * ratio), floor(h * ratio))` — and each of the two mutations
/// performs exactly one release/allocate pair: surfaces are swapped, never
/// leaked or doubled.
pub proof fn lemma_resolution_then_scale(
    s0: Screen,
    s1: Screen,
    s2: Screen,
    w: i32,
    h: i32,
    ratio: RenderRatio,
    r1: Result<(), ScreenError>,
    r2: Result<(), ScreenError>,
)
    requires
        s0.wf(),
        s0.backend_initialized,
        s0.render_texture is Some,
        w >= 0,
        h >= 0,
        ratio.wf(),
        0 < scaled(w as int, s0.render_ratio) <= i32::MAX as int,
        0 < scaled(h as int, s0.render_ratio) <= i32::MAX as int,
        0 < scaled(w as int, ratio) <= i32::MAX as int,
        0 < scaled(h as int, ratio) <= i32::MAX as int,
        set_resolution_post(s0, w, h, s1, r1),
        set_render_scale_post(s1, ratio, s2, r2),
    ensures
        r1 == Ok::<(), ScreenError>(()),
        r2 == Ok::<(), ScreenError>(()),
        s2.render.width as int == scaled(w as int, ratio),
        s2.render.height as int == scaled(h as int, ratio),
        s2.render_texture == Some(
            OffscreenSurface { width: s2.render.width, height: s2.render.height },
        ),
        release_count(s1.commands@.skip(s0.commands@.len() as int)) == 1,
        allocate_count(s1.commands@.skip(s0.commands@.len() as int)) == 1,
        release_count(s2.commands@.skip(s1.commands@.len() as int)) == 1,
        allocate_count(s2.commands@.skip(s1.commands@.len() as int)) == 1,
{
    let rw1 = scaled(w as int, s0.render_ratio) as i32;
    let rh1 = scaled(h as int, s0.render_ratio) as i32;
    let rw2 = scaled(w as int, ratio) as i32;
    let rh2 = scaled(h as int, ratio) as i32;
    let e1 = seq![BackendCommand::SetWindowSize { width: w, height: h }] + realloc_cmds(
        true,
        true,
        rw1,
        rh1,
    );
    assert(s1.commands@.skip(s0.commands@.len() as int) =~= e1);
    lemma_counts_singleton(BackendCommand::SetWindowSize { width: w, height: h });
    lemma_realloc_cmds_counts(true, true, rw1, rh1);
    lemma_counts_concat(
        seq![BackendCommand::SetWindowSize { width: w, height: h }],
        realloc_cmds(true, true, rw1, rh1),
    );
    let e2 = realloc_cmds(true, true, rw2, rh2);
    assert(s2.commands@.skip(s1.commands@.len() as int) =~= e2);
    lemma_realloc_cmds_counts(true, true, rw2, rh2);
}

/// Setting the render scale and then the resolution — the other order — ends
/// in the same state: the surface allocated at exactly the scaled size, one
/// release/allocate pair per mutation.
pub proof fn lemma_scale_then_resolution(
    s0: Screen,
    s1: Screen,
    s2: Screen,
    w: i32,
    h: i32,
    ratio: RenderRatio,
    r1: Result<(), ScreenError>,
    r2: Result<(), ScreenError>,
)
    requires
        s0.wf(),
        s0.backend_initialized,
        s0.render_texture is Some,
        w >= 0,
        h >= 0,
        ratio.wf(),
        0 < scaled(s0.screen.width as int, ratio) <= i32::MAX as int,
        0 < scaled(s0.screen.height as int, ratio) <= i32::MAX as int,
        0 < scaled(w as int, ratio) <= i32::MAX as int,
        0 < scaled(h as int, ratio) <= i32::MAX as int,
        set_render_scale_post(s0, ratio, s1, r1),
        set_resolution_post(s1, w, h, s2, r2),
    ensures
        r1 == Ok::<(), ScreenError>(()),
        r2 == Ok::<(), ScreenError>(()),
        s2.render.width as int == scaled(w as int, ratio),
        s2.render.height as int == scaled(h as int, ratio),
        s2.render_texture == Some(
            OffscreenSurface { width: s2.render.width, height: s2.render.height },
        ),
        release_count(s1.commands@.skip(s0.commands@.len() as int)) == 1,
        allocate_count(s1.commands@.skip(s0.commands@.len() as int)) == 1,
        release_count(s2.commands@.skip(s1.commands@.len() as int)) == 1,
        allocate_count(s2.commands@.skip(s1.commands@.len() as int)) == 1,
{
    let rw1 = scaled(s0.screen.width as int, ratio) as i32;
    let rh1 = scaled(s0.screen.height as int, ratio) as i32;
    let rw2 = scaled(w as int, ratio) as i32;
    let rh2 = scaled(h as int, ratio) as i32;
    let e1 = realloc_cmds(true, true, rw1, rh1);
    assert(s1.commands@.skip(s0.commands@.len() as int) =~= e1);
    lemma_realloc_cmds_counts(true, true, rw1, rh1);
    let e2 = seq![BackendCommand::SetWindowSize { width: w, height: h }] + realloc_cmds(
        true,
        true,
        rw2,
        rh2,
    );
    assert(s2.commands@.skip(s1.commands@.len() as int) =~= e2);
    lemma_counts_singleton(BackendCommand::SetWindowSize { width: w, height: h });
    lemma_realloc_cmds_counts(true, true, rw2, rh2);
    lemma_counts_concat(
        seq![BackendCommand::SetWindowSize { width: w, height: h }],
        realloc_cmds(true, true, rw2, rh2),
    );
}

/// Setting the same resolution twice is idempotent on the state — the second
/// call leaves the same screen, render size and surface as the first — but not
/// on the backend: each call still performs its own release/allocate pair, by
/// design.
pub proof fn lemma_set_resolution_repeated(
    s0: Screen,
    s1: Screen,
    s2: Screen,
    w: i32,
    h: i32,
    r1: Result<(), ScreenError>,
    r2: Result<(), ScreenError>,
)
    requires
        s0.wf(),
        s0.backend_initialized,
        s0.render_texture is Some,
        w >= 0,
        h >= 0,
        0 < scaled(w as int, s0.render_ratio) <= i32::MAX as int,
        0 < scaled(h as int, s0.render_ratio) <= i32::MAX as int,
        set_resolution_post(s0, w, h, s1, r1),
        set_resolution_post(s1, w, h, s2, r2),
    ensures
        s2.screen == s1.screen,
        s2.render == s1.render,
        s2.render_texture == s1.render_texture,
        r1 == r2,
        release_count(s1.commands@.skip(s0.commands@.len() as int)) == 1,
        allocate_count(s1.commands@.skip(s0.commands@.len() as int)) == 1,
        release_count(s2.commands@.skip(s1.commands@.len() as int)) == 1,
        allocate_count(s2.commands@.skip(s1.commands@.len() as int)) == 1,
{
    let rw = scaled(w as int, s0.render_ratio) as i32;
    let rh = scaled(h as int, s0.render_ratio) as i32;
    let e = seq![BackendCommand::SetWindowSize { width: w, height: h }] + realloc_cmds(
        true,
        true,
        rw,
        rh,
    );
    assert(s1.commands@.skip(s0.commands@.len() as int) =~= e);
    assert(s2.commands@.skip(s1.commands@.len() as int) =~= e);
    lemma_counts_singleton(BackendCommand::SetWindowSize { width: w, height: h });
    lemma_realloc_cmds_counts(true, true, rw, rh);
    lemma_counts_concat(
        seq![BackendCommand::SetWindowSize { width: w, height: h }],
        realloc_cmds(true, true, rw, rh),
    );
}

/// Every presented frame blits the surface exactly once, and always with the
/// source rectangle's height negated against the render height — the vertical
/// flip — and the destination covering the full screen, untinted and
/// unrotated. The negation is genuine: no truncation hides in the cast.
pub proof fn lemma_end_draw_flips(pre: Screen, post: Screen)
    requires
        pre.wf(),
        pre.render_texture is Some,
        end_draw_post(pre, post),
    ensures
        blit_count(post.commands@.skip(pre.commands@.len() as int)) == 1,
        post.commands@.len() >= 2,
        post.commands@[post.commands@.len() - 2] == (BackendCommand::DrawSurface {
            source: Rect {
                x: 0,
                y: 0,
                width: pre.render.width,
                height: ((0 - pre.render.height as int) as i32),
            },
            dest: Rect { x: 0, y: 0, width: pre.screen.width, height: pre.screen.height },
            origin_x: 0,
            origin_y: 0,
            rotation: 0,
            tint: Color { r: 255, g: 255, b: 255, a: 255 },
        }),
        ((0 - pre.render.height as int) as i32) as int == -(pre.render.height as int),
{
    let blit = BackendCommand::DrawSurface {
        source: Rect {
            x: 0,
            y: 0,
            width: pre.render.width,
            height: ((0 - pre.render.height as int) as i32),
        },
        dest: Rect { x: 0, y: 0, width: pre.screen.width, height: pre.screen.height },
        origin_x: 0,
        origin_y: 0,
        rotation: 0,
        tint: Color { r: 255, g: 255, b: 255, a: 255 },
    };
    let panel: Seq<BackendCommand> = if pre.debug.display {
        seq![BackendCommand::DrawDebugPanel]
    } else {
        Seq::empty()
    };
    let texts = overlay_draw_cmds(pre.debug.messages@, pre.render.height as int);
    let tail = seq![
        BackendCommand::EndSurfaceDraw,
        BackendCommand::BeginFrame,
        blit,
        BackendCommand::EndFrame,
    ];
    let e = end_frame_cmds(pre.debug.messages@, pre.debug.display, pre.render, pre.screen);
    assert(e =~= panel + texts + tail);
    assert(post.commands@.skip(pre.commands@.len() as int) =~= e);
    if pre.debug.display {
        lemma_counts_singleton(BackendCommand::DrawDebugPanel);
    }
    lemma_overlay_cmds_counts(pre.debug.messages@, pre.render.height as int);
    assert(tail.drop_last() =~= seq![
        BackendCommand::EndSurfaceDraw,
        BackendCommand::BeginFrame,
        blit,
    ]);
    assert(tail.drop_last().drop_last() =~= seq![
        BackendCommand::EndSurfaceDraw,
        BackendCommand::BeginFrame,
    ]);
    assert(tail.drop_last().drop_last().drop_last() =~= seq![BackendCommand::EndSurfaceDraw]);
    assert(tail.drop_last().drop_last().drop_last().drop_last() =~= Seq::<
        BackendCommand,
    >::empty());
    assert(blit_count(Seq::<BackendCommand>::empty()) == 0);
    assert(blit_count(tail.drop_last().drop_last().drop_last()) == 0);
    assert(blit_count(tail.drop_last().drop_last()) == 0);
    assert(blit_count(tail.drop_last()) == 1);
    assert(blit_count(tail) == 1);
    lemma_counts_concat(panel, texts);
    lemma_counts_concat(panel + texts, tail);
    assert(e[e.len() - 2] == blit);
    assert(post.commands@[post.commands@.len() - 2] == blit);
}

/// A frame draws exactly the messages that survive it — those whose ttl is
/// still positive after the decrement — one text draw per survivor, in their
/// original order, bottom-up: the `i`-th survivor stands 8 units above the
/// bottom of the render surface plus 10 units per survivor below it.
pub proof fn lemma_overlay_draws_survivors(msgs: Seq<DebugMessage>, h: int)
    ensures
        overlay_draw_cmds(msgs, h).len() == live_count(msgs),
        ticked(msgs).len() == live_count(msgs),
        forall|i: int|
            0 <= i < live_count(msgs) ==> overlay_draw_cmds(msgs, h)[i]
                == (BackendCommand::DrawText {
                text: ticked(msgs)[i].text,
                x: 0,
                y: ((h - 8 - 10 * i) as i32),
                size: 8,
                spacing: 1,
                color: Color { r: 0, g: 0, b: 0, a: 255 },
            }),
    decreases msgs.len(),
{
    if msgs.len() > 0 {
        lemma_overlay_draws_survivors(msgs.drop_last(), h);
    }
}

/// Toggling fullscreen twice returns the window state to its starting value
/// exactly when it started at Windowed or Fullscreen; started at Borderless,
/// two fullscreen toggles land on Windowed instead.
pub proof fn lemma_toggle_fullscreen_twice(
    s0: Screen,
    s1: Screen,
    s2: Screen,
    w1: i32,
    h1: i32,
    w2: i32,
    h2: i32,
    r1: Result<(), ScreenError>,
    r2: Result<(), ScreenError>,
)
    requires
        toggle_post(s0, fullscreen_toggled(s0.window_state), w1, h1, s1, r1),
        toggle_post(s1, fullscreen_toggled(s1.window_state), w2, h2, s2, r2),
    ensures
        s2.window_state == (if s0.window_state is Borderless {
            WindowState::Windowed
        } else {
            s0.window_state
        }),
        (s2.window_state == s0.window_state) <==> !(s0.window_state is Borderless),
{
}

/// Toggling borderless twice returns the window state to its starting value
/// exactly when it started at Windowed or Borderless; started at Fullscreen,
/// two borderless toggles land on Windowed instead.
pub proof fn lemma_toggle_borderless_twice(
    s0: Screen,
    s1: Screen,
    s2: Screen,
    w1: i32,
    h1: i32,
    w2: i32,
    h2: i32,
    r1: Result<(), ScreenError>,
    r2: Result<(), ScreenError>,
)
    requires
        toggle_post(s0, borderless_toggled(s0.window_state), w1, h1, s1, r1),
        toggle_post(s1, borderless_toggled(s1.window_state), w2, h2, s2, r2),
    ensures
        s2.window_state == (if s0.window_state is Fullscreen {
            WindowState::Windowed
        } else {
            s0.window_state
        }),
        (s2.window_state == s0.window_state) <==> !(s0.window_state is Fullscreen),
{
}

} // verus!
