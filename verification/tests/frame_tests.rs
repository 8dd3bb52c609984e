use screen_core::backend::{BackendCommand, Color, Rect};
use screen_core::screen::{Resolution, Screen, WindowState};

fn initialized_screen() -> Screen {
    let mut s = Screen::new();
    let r = s.init("demo".to_string());
    assert!(r.is_ok());
    s
}

fn draws_text(cmds: &[BackendCommand], wanted: &str) -> bool {
    cmds.iter().any(|c| matches!(c, BackendCommand::DrawText { text, .. } if text == wanted))
}

#[test]
fn start_draw_begins_pass_and_clears_background() {
    let mut s = initialized_screen();
    let before = s.commands.len();
    s.start_draw();
    assert_eq!(
        &s.commands[before..],
        &[
            BackendCommand::BeginSurfaceDraw,
            BackendCommand::ClearBackground { color: Color { r: 80, g: 80, b: 80, a: 255 } },
        ],
    );
}

#[test]
fn frame_protocol_without_surface_reports_and_changes_nothing() {
    let mut s = Screen::new();
    s.start_draw();
    s.end_draw();
    assert!(s.commands.is_empty(), "no backend call may be made without a surface");
    assert_eq!(s.window_state, WindowState::Windowed);
    assert_eq!(s.screen, Resolution { width: 1280, height: 720 });
    assert_eq!(s.render, Resolution { width: 1280, height: 720 });
    assert_eq!(s.debug.messages.len(), 2);
    for m in &s.debug.messages {
        assert_eq!(m.text, "render texture does not exist");
    }
}

#[test]
fn end_draw_blits_with_flipped_source_every_frame() {
    let mut s = initialized_screen();
    for _ in 0..3 {
        let before = s.commands.len();
        s.start_draw();
        s.end_draw();
        let frame = &s.commands[before..];
        let blits: Vec<&BackendCommand> = frame
            .iter()
            .filter(|c| matches!(c, BackendCommand::DrawSurface { .. }))
            .collect();
        assert_eq!(blits.len(), 1, "each presented frame blits exactly once");
        assert_eq!(
            blits[0],
            &BackendCommand::DrawSurface {
                source: Rect { x: 0, y: 0, width: 1280, height: -720 },
                dest: Rect { x: 0, y: 0, width: 1280, height: 720 },
                origin_x: 0,
                origin_y: 0,
                rotation: 0,
                tint: Color { r: 255, g: 255, b: 255, a: 255 },
            },
        );
    }
}

#[test]
fn end_draw_orders_the_presentation_calls() {
    let mut s = initialized_screen();
    s.start_draw();
    let before = s.commands.len();
    s.end_draw();
    let frame = &s.commands[before..];
    assert_eq!(frame[0], BackendCommand::EndSurfaceDraw);
    assert_eq!(frame[1], BackendCommand::BeginFrame);
    assert!(matches!(frame[2], BackendCommand::DrawSurface { .. }));
    assert_eq!(frame[3], BackendCommand::EndFrame);
}

#[test]
fn message_with_ttl_three_is_drawn_twice_then_removed() {
    let mut s = initialized_screen();
    s.debug.log("hello".to_string(), 3);

    s.start_draw();
    let before = s.commands.len();
    s.end_draw();
    assert!(draws_text(&s.commands[before..], "hello"), "drawn on the first frame");
    assert_eq!(s.debug.messages.len(), 1);
    assert_eq!(s.debug.messages[0].ttl, 2);

    s.start_draw();
    let before = s.commands.len();
    s.end_draw();
    assert!(draws_text(&s.commands[before..], "hello"), "drawn on the second frame");
    assert_eq!(s.debug.messages.len(), 1);
    assert_eq!(s.debug.messages[0].ttl, 1);

    s.start_draw();
    let before = s.commands.len();
    s.end_draw();
    assert!(!draws_text(&s.commands[before..], "hello"), "not drawn on the third frame");
    assert!(s.debug.messages.is_empty(), "removed after the third frame");
}

#[test]
fn messages_are_drawn_bottom_up_in_insertion_order() {
    let mut s = initialized_screen();
    s.debug.log("first".to_string(), 5);
    s.debug.log("second".to_string(), 5);
    s.start_draw();
    let before = s.commands.len();
    s.end_draw();
    let texts: Vec<(String, i32, i32, i32, i32)> = s.commands[before..]
        .iter()
        .filter_map(|c| match c {
            BackendCommand::DrawText { text, x, y, size, spacing, .. } => {
                Some((text.clone(), *x, *y, *size, *spacing))
            },
            _ => None,
        })
        .collect();
    // 720-high render surface: 8 units up from the bottom, then 10 above that.
    assert_eq!(
        texts,
        vec![
            ("first".to_string(), 0, 712, 8, 1),
            ("second".to_string(), 0, 702, 8, 1),
        ],
    );
}

#[test]
fn expiring_message_keeps_survivors_in_order() {
    let mut s = initialized_screen();
    s.debug.log("goes".to_string(), 1);
    s.debug.log("stays".to_string(), 3);
    s.debug.log("stays too".to_string(), 3);
    s.start_draw();
    let before = s.commands.len();
    s.end_draw();
    assert!(!draws_text(&s.commands[before..], "goes"));
    let texts: Vec<String> = s.debug.messages.iter().map(|m| m.text.clone()).collect();
    assert_eq!(texts, vec!["stays".to_string(), "stays too".to_string()]);
}

#[test]
fn debug_mode_flag_adds_the_panel_draw() {
    let mut s = initialized_screen();
    s.start_draw();
    let before = s.commands.len();
    s.end_draw();
    assert!(!s.commands[before..].contains(&BackendCommand::DrawDebugPanel));

    s.debug.debug_mode();
    assert!(s.debug.display);
    s.start_draw();
    let before = s.commands.len();
    s.end_draw();
    assert_eq!(s.commands[before..][0], BackendCommand::DrawDebugPanel);
}

#[test]
fn full_overlay_drops_new_messages() {
    let mut s = Screen::new();
    for i in 0..64 {
        s.debug.log(format!("m{}", i), 9);
    }
    assert_eq!(s.debug.messages.len(), 64);
    s.debug.log("overflow".to_string(), 9);
    assert_eq!(s.debug.messages.len(), 64);
    assert_eq!(s.debug.messages[63].text, "m63");
}
