use screen_core::backend::{BackendCommand, Color};
use screen_core::screen::{RenderRatio, Resolution, Screen, ScreenError, WindowState};

fn count_allocates(cmds: &[BackendCommand]) -> usize {
    cmds.iter().filter(|c| matches!(c, BackendCommand::AllocateSurface { .. })).count()
}

fn count_releases(cmds: &[BackendCommand]) -> usize {
    cmds.iter().filter(|c| matches!(c, BackendCommand::ReleaseSurface)).count()
}

fn initialized_screen() -> Screen {
    let mut s = Screen::new();
    let r = s.init("demo".to_string());
    assert!(r.is_ok());
    s
}

#[test]
fn new_has_documented_defaults() {
    let s = Screen::new();
    assert_eq!(s.screen, Resolution { width: 1280, height: 720 });
    assert_eq!(s.render, Resolution { width: 1280, height: 720 });
    assert_eq!(s.window_state, WindowState::Windowed);
    assert_eq!(s.render_ratio, RenderRatio { num: 1, den: 1 });
    assert!(s.render_texture.is_none());
    assert!(!s.backend_initialized);
    assert_eq!(s.background_color, Color { r: 80, g: 80, b: 80, a: 255 });
    assert_eq!(s.framerate, 60);
    assert!(!s.debug.display);
    assert!(s.debug.messages.is_empty());
    assert!(s.commands.is_empty());
}

#[test]
fn init_opens_window_and_allocates_first_surface() {
    let s = initialized_screen();
    assert!(s.backend_initialized);
    assert_eq!(
        s.commands,
        vec![
            BackendCommand::SetLogVerbosity { level: 7 },
            BackendCommand::OpenWindow { width: 1280, height: 720, title: "demo".to_string() },
            BackendCommand::SetTargetFps { fps: 60 },
            BackendCommand::SetTextLineSpacing { spacing: 9 },
            BackendCommand::AllocateSurface { width: 1280, height: 720 },
        ],
    );
    let t = s.render_texture.as_ref().unwrap();
    assert_eq!((t.width, t.height), (1280, 720));
}

#[test]
fn resolution_then_scale_swaps_exactly_one_surface_per_call() {
    let mut s = initialized_screen();

    let before = s.commands.len();
    assert!(s.set_resolution(100, 50).is_ok());
    let first = &s.commands[before..];
    assert_eq!(count_releases(first), 1);
    assert_eq!(count_allocates(first), 1);

    let before = s.commands.len();
    assert!(s.set_render_scale(RenderRatio { num: 1, den: 2 }).is_ok());
    let second = &s.commands[before..];
    assert_eq!(count_releases(second), 1);
    assert_eq!(count_allocates(second), 1);

    assert_eq!(s.render, Resolution { width: 50, height: 25 });
    let t = s.render_texture.as_ref().unwrap();
    assert_eq!((t.width, t.height), (50, 25));
}

#[test]
fn scale_then_resolution_reaches_the_same_surface() {
    let mut s = initialized_screen();

    let before = s.commands.len();
    assert!(s.set_render_scale(RenderRatio { num: 1, den: 2 }).is_ok());
    let first = &s.commands[before..];
    assert_eq!(count_releases(first), 1);
    assert_eq!(count_allocates(first), 1);

    let before = s.commands.len();
    assert!(s.set_resolution(100, 50).is_ok());
    let second = &s.commands[before..];
    assert_eq!(count_releases(second), 1);
    assert_eq!(count_allocates(second), 1);

    assert_eq!(s.render, Resolution { width: 50, height: 25 });
    let t = s.render_texture.as_ref().unwrap();
    assert_eq!((t.width, t.height), (50, 25));
}

#[test]
fn scaling_floors_each_dimension() {
    let mut s = initialized_screen();
    assert!(s.set_render_scale(RenderRatio { num: 1, den: 2 }).is_ok());
    assert!(s.set_resolution(101, 51).is_ok());
    assert_eq!(s.render, Resolution { width: 50, height: 25 });
}

#[test]
fn repeated_set_resolution_still_reallocates_every_call() {
    let mut s = initialized_screen();
    assert!(s.set_resolution(640, 360).is_ok());
    let render_after_first = s.render;

    let before = s.commands.len();
    assert!(s.set_resolution(640, 360).is_ok());
    let second = &s.commands[before..];
    assert_eq!(s.render, render_after_first);
    assert_eq!(count_releases(second), 1, "the second call must release again");
    assert_eq!(count_allocates(second), 1, "the second call must allocate again");
}

#[test]
fn set_resolution_before_init_touches_no_backend() {
    let mut s = Screen::new();
    assert!(s.set_resolution(640, 360).is_ok());
    assert_eq!(s.screen, Resolution { width: 640, height: 360 });
    assert_eq!(s.render, Resolution { width: 640, height: 360 });
    assert!(s.render_texture.is_none());
    assert!(s.commands.is_empty());
}

#[test]
fn degenerate_render_size_is_reported_and_leaves_no_surface() {
    let mut s = initialized_screen();
    assert_eq!(s.set_resolution(0, 100), Err(ScreenError::InvalidSurfaceSize));
    assert!(s.render_texture.is_none());

    let mut s = initialized_screen();
    assert!(s.set_resolution(1, 1).is_ok());
    assert_eq!(
        s.set_render_scale(RenderRatio { num: 1, den: 2 }),
        Err(ScreenError::InvalidSurfaceSize),
    );
    assert_eq!(s.render, Resolution { width: 0, height: 0 });
    assert!(s.render_texture.is_none());
}

#[test]
fn toggle_fullscreen_twice_returns_from_windowed() {
    let mut s = initialized_screen();
    assert!(s.toggle_fullscreen(1920, 1080).is_ok());
    assert_eq!(s.window_state, WindowState::Fullscreen);
    assert_eq!(s.screen, Resolution { width: 1920, height: 1080 });
    assert_eq!(s.render, Resolution { width: 1920, height: 1080 });
    assert!(s.toggle_fullscreen(1280, 720).is_ok());
    assert_eq!(s.window_state, WindowState::Windowed);
}

#[test]
fn toggle_fullscreen_twice_from_borderless_lands_on_windowed() {
    let mut s = initialized_screen();
    assert!(s.toggle_borderless(1920, 1080).is_ok());
    assert_eq!(s.window_state, WindowState::Borderless);
    assert!(s.toggle_fullscreen(1920, 1080).is_ok());
    assert_eq!(s.window_state, WindowState::Fullscreen);
    assert!(s.toggle_fullscreen(1280, 720).is_ok());
    assert_eq!(s.window_state, WindowState::Windowed);
}

#[test]
fn toggle_borderless_twice_returns_from_windowed() {
    let mut s = initialized_screen();
    assert!(s.toggle_borderless(1920, 1080).is_ok());
    assert_eq!(s.window_state, WindowState::Borderless);
    assert!(s.toggle_borderless(1280, 720).is_ok());
    assert_eq!(s.window_state, WindowState::Windowed);
}

#[test]
fn toggle_borderless_twice_from_fullscreen_lands_on_windowed() {
    let mut s = initialized_screen();
    assert!(s.toggle_fullscreen(1920, 1080).is_ok());
    assert_eq!(s.window_state, WindowState::Fullscreen);
    assert!(s.toggle_borderless(1920, 1080).is_ok());
    assert_eq!(s.window_state, WindowState::Borderless);
    assert!(s.toggle_borderless(1280, 720).is_ok());
    assert_eq!(s.window_state, WindowState::Windowed);
}

#[test]
fn toggle_reallocates_the_surface() {
    let mut s = initialized_screen();
    let before = s.commands.len();
    assert!(s.toggle_fullscreen(1920, 1080).is_ok());
    let appended = &s.commands[before..];
    assert_eq!(count_releases(appended), 1);
    assert_eq!(count_allocates(appended), 1);
    let t = s.render_texture.as_ref().unwrap();
    assert_eq!((t.width, t.height), (1920, 1080));
}

#[test]
fn window_ready_is_false_until_initialized() {
    let s = Screen::new();
    assert!(!s.window_ready(true));
    assert!(!s.window_ready(false));
    let s = initialized_screen();
    assert!(s.window_ready(true));
    assert!(!s.window_ready(false));
}

#[test]
fn set_fps_records_the_backend_call() {
    let mut s = initialized_screen();
    let before = s.commands.len();
    s.set_fps(144);
    assert_eq!(s.framerate, 144);
    assert_eq!(&s.commands[before..], &[BackendCommand::SetTargetFps { fps: 144 }]);
}

#[test]
fn close_releases_surface_then_closes_window() {
    let mut s = initialized_screen();
    let before = s.commands.len();
    s.close();
    assert_eq!(
        &s.commands[before..],
        &[BackendCommand::ReleaseSurface, BackendCommand::CloseWindow],
    );
    assert!(s.render_texture.is_none());
    assert!(!s.backend_initialized);
}

#[test]
fn close_without_init_only_closes_window() {
    let mut s = Screen::new();
    s.close();
    assert_eq!(s.commands, vec![BackendCommand::CloseWindow]);
    assert!(!s.backend_initialized);
}
