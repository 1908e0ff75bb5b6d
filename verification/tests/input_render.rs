//! Input handling and the per-frame command sequence, exercised on
//! concrete events.

use rust_webgl::app::App;
use rust_webgl::geometry::{vertex_data, COORDINATE_SCALE};
use rust_webgl::render::GlCommand;
use rust_webgl::translation::{parse_key, ArrowKey, Translation, KEY_STEP, TRANSLATION_SCALE};

#[test]
fn vertex_buffer_content_exact() {
    let v = vertex_data();
    assert_eq!(v, vec![-7, -7, 0, 7, -7, 0, 0, 7, 0]);
    let floats: Vec<f32> = v.iter().map(|n| *n as f32 / COORDINATE_SCALE as f32).collect();
    assert_eq!(floats, vec![-0.7, -0.7, 0.0, 0.7, -0.7, 0.0, 0.0, 0.7, 0.0]);
}

#[test]
fn pointer_press_sets_absolute_translation() {
    let mut app = App::new();
    // Prior state must not matter: a pointer press assigns absolutely.
    app.on_key_down("ArrowLeft");
    let frame = app.on_mouse_down(150, 300);
    assert_eq!(app.translation, Translation { x: -300, y: 600 });
    let x = app.translation.x as f32 / TRANSLATION_SCALE as f32;
    let y = app.translation.y as f32 / TRANSLATION_SCALE as f32;
    assert_eq!(x, -1.0);
    assert_eq!(y, 2.0);
    assert_eq!(frame[1], GlCommand::SetTranslationUniform { x: -300, y: 600 });
}

#[test]
fn parse_key_recognizes_arrows_only() {
    assert_eq!(parse_key("ArrowUp"), Some(ArrowKey::Up));
    assert_eq!(parse_key("ArrowDown"), Some(ArrowKey::Down));
    assert_eq!(parse_key("ArrowLeft"), Some(ArrowKey::Left));
    assert_eq!(parse_key("ArrowRight"), Some(ArrowKey::Right));
    assert_eq!(parse_key("Escape"), None);
    assert_eq!(parse_key("arrowup"), None);
    assert_eq!(parse_key(""), None);
}

#[test]
fn arrow_keys_move_one_tenth() {
    let mut app = App::new();
    app.on_key_down("ArrowDown");
    assert_eq!(app.translation, Translation { x: 0, y: KEY_STEP });
    app.on_key_down("ArrowLeft");
    assert_eq!(app.translation, Translation { x: KEY_STEP, y: KEY_STEP });
    app.on_key_down("ArrowUp");
    app.on_key_down("ArrowRight");
    assert_eq!(app.translation, Translation { x: 0, y: 0 });
    // One step is exactly 0.1 of normalized space.
    assert_eq!(KEY_STEP as f32 / TRANSLATION_SCALE as f32, 0.1);
}

#[test]
fn arrow_key_pairs_cancel() {
    let mut app = App::new();
    app.on_mouse_down(37, 91);
    let before = app.translation;
    app.on_key_down("ArrowUp");
    app.on_key_down("ArrowDown");
    assert_eq!(app.translation, before);
    app.on_key_down("ArrowLeft");
    app.on_key_down("ArrowRight");
    assert_eq!(app.translation, before);
}

#[test]
fn arrow_pair_cancels_at_numerator_bound() {
    let mut t = Translation { x: 0, y: i64::MIN + 5 };
    t.apply_arrow(ArrowKey::Up);
    t.apply_arrow(ArrowKey::Down);
    assert_eq!(t, Translation { x: 0, y: i64::MIN + 5 });
}

#[test]
fn unrecognized_key_redraws_unchanged() {
    let mut app = App::new();
    app.on_key_down("ArrowDown");
    let before = app.translation;
    let frame = app.on_key_down("Escape");
    assert_eq!(app.translation, before);
    // The redraw still happens: a full frame comes back.
    assert_eq!(frame.len(), 8);
    assert_eq!(frame[7], GlCommand::DrawTriangles { first: 0, count: 3 });
}

#[test]
fn frame_command_order() {
    let app = App::new();
    let frame = app.draw();
    assert_eq!(
        frame,
        vec![
            GlCommand::UseProgram,
            GlCommand::SetTranslationUniform { x: 0, y: 0 },
            GlCommand::BindVertexBuffer,
            GlCommand::SetVertexLayout { slot: 0, components: 3 },
            GlCommand::EnableVertexAttribute { slot: 0 },
            GlCommand::SetClearColorOpaqueBlack,
            GlCommand::ClearColorBuffer,
            GlCommand::DrawTriangles { first: 0, count: 3 },
        ]
    );
}

#[test]
fn draw_issues_single_triangle_draw() {
    let mut app = App::new();
    app.on_mouse_down(10, 20);
    app.on_key_down("ArrowUp");
    app.on_key_down("ArrowLeft");
    app.on_key_down("Escape");
    let frame = app.draw();
    let draws: Vec<&GlCommand> = frame
        .iter()
        .filter(|c| matches!(c, GlCommand::DrawTriangles { .. }))
        .collect();
    assert_eq!(draws.len(), 1);
    assert_eq!(*draws[0], GlCommand::DrawTriangles { first: 0, count: 3 });
}
