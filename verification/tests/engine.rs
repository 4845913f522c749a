use caper::game::{classify_loop_event, loop_flow, Game, LoopAction, LoopEvent, LoopFlow, UpdateStatus, TICK_NANOS};
use caper::renderer::{flip_rows_vertical, Renderer};
use caper::types::{Material, PhysicsType, RenderItem, TextItem, Transform, Vector3, FP_ONE};

fn named_item(name: &str) -> RenderItem {
    RenderItem {
        name: name.to_owned(),
        vertices: Vec::new(),
        material: Material {
            shader_name: "dist".to_owned(),
            texture_name: None,
            normal_texture_name: None,
        },
        physics_type: PhysicsType::Off,
        instance_transforms: vec![Transform::at_pos(Vector3 { x: 0, y: 0, z: 0 })],
        active: true,
    }
}

fn named_text(name: &str) -> TextItem {
    TextItem {
        name: name.to_owned(),
        text: "hello".to_owned(),
        pos: Vector3 { x: 0, y: 0, z: 0 },
        scale: Vector3 { x: FP_ONE, y: FP_ONE, z: FP_ONE },
        color: caper::types::Color { r: FP_ONE, g: FP_ONE, b: FP_ONE, a: FP_ONE },
        active: true,
    }
}

#[test]
fn new_game_defaults() {
    let g = Game::new();
    assert_eq!(g.cams.len(), 1);
    assert_eq!(g.cams[0].pos, Vector3 { x: 0, y: 0, z: 0 });
    assert_eq!(g.render_items_len(), 0);
    assert_eq!(g.text_items_len(), 0);
    assert_eq!(g.physics_items_len(), 0);
    assert_eq!(g.delta, TICK_NANOS);
    assert_eq!(g.renderer.render_count, 0);
    assert_eq!(g.renderer.fps, 0);
    assert!(!g.renderer.show_editor);
}

#[test]
fn default_game_matches_new() {
    let g = Game::default();
    assert_eq!(g.cams.len(), 1);
    assert_eq!(g.render_items_len(), 0);
    assert_eq!(g.delta, TICK_NANOS);
}

#[test]
fn render_item_lookup_by_name() {
    let mut g = Game::new();
    g.add_render_item(named_item("floor"));
    g.add_render_item(named_item("wall"));
    g.add_render_item(named_item("floor"));
    assert_eq!(g.get_render_item_by_name("floor"), Some(0));
    assert_eq!(g.get_render_item_by_name("wall"), Some(1));
    assert_eq!(g.get_render_item_by_name("roof"), None);
    assert_eq!(g.get_render_item(1).name, "wall");
}

#[test]
fn text_item_lookup_by_name() {
    let mut g = Game::new();
    g.add_text_item(named_text("fps"));
    g.add_text_item(named_text("score"));
    assert_eq!(g.get_text_item_by_name("score".to_owned()), Some(1));
    assert_eq!(g.get_text_item_by_name("lives".to_owned()), None);
    assert_eq!(g.get_text_item(0).name, "fps");
    let mut replacement = named_text("fps");
    replacement.text = "60".to_owned();
    g.set_text_item(0, replacement);
    assert_eq!(g.get_text_item(0).text, "60");
}

#[test]
fn update_records_delta_and_passes_status() {
    let mut g = Game::new();
    let st = g.update(UpdateStatus::Continue, 123_456);
    assert!(matches!(st, UpdateStatus::Continue));
    assert_eq!(g.delta, 123_456);
    let st = g.update(UpdateStatus::Finish, 7);
    assert!(matches!(st, UpdateStatus::Finish));
    assert_eq!(g.delta, 7);
}

#[test]
fn loop_runs_callback_only_on_tick_wakeups() {
    assert_eq!(classify_loop_event(&LoopEvent::WakeInit), LoopAction::RunCallback);
    assert_eq!(
        classify_loop_event(&LoopEvent::WakeResumeTimeReached),
        LoopAction::RunCallback
    );
    assert_eq!(classify_loop_event(&LoopEvent::WakeOther), LoopAction::Skip);
    assert_eq!(classify_loop_event(&LoopEvent::Incoming), LoopAction::Buffer);
}

#[test]
fn loop_exits_only_on_finish() {
    assert_eq!(loop_flow(&UpdateStatus::Continue), LoopFlow::WaitUntil);
    assert_eq!(loop_flow(&UpdateStatus::Finish), LoopFlow::Exit);
}

#[test]
fn fps_tick_counts_at_least_this_frame() {
    let mut renderer = Renderer::new();
    assert_eq!(renderer.fps, 0);
    renderer.update_fps();
    assert!(renderer.fps >= 1);
    renderer.update_fps();
    assert!(renderer.fps >= 1);
}

#[test]
fn gif_encoder_reopens_only_on_path_change() {
    let mut renderer = Renderer::new();
    let path = "out.gif".to_owned();
    assert!(renderer.gif_needs_new_file(&path));
    renderer.set_gif_target(path.clone());
    assert!(!renderer.gif_needs_new_file(&path));
    assert!(renderer.gif_needs_new_file(&"other.gif".to_owned()));
}

#[test]
fn flip_reverses_row_order() {
    // two rows of one RGBA pixel each
    let data: Vec<u8> = vec![1, 2, 3, 4, 5, 6, 7, 8];
    let flipped = flip_rows_vertical(&data, 1, 2);
    assert_eq!(flipped, vec![5, 6, 7, 8, 1, 2, 3, 4]);
    // three rows of two pixels
    let data: Vec<u8> = (0..24).collect();
    let flipped = flip_rows_vertical(&data, 2, 3);
    let mut expected: Vec<u8> = Vec::new();
    expected.extend(16..24);
    expected.extend(8..16);
    expected.extend(0..8);
    assert_eq!(flipped, expected);
}

#[test]
fn removing_an_item_shifts_the_rest() {
    let mut g = Game::new();
    g.add_render_item(named_item("a"));
    g.add_render_item(named_item("b"));
    g.add_render_item(named_item("c"));
    let removed = g.remove_render_item(1);
    assert_eq!(removed.name, "b");
    assert_eq!(g.render_items_len(), 2);
    assert_eq!(g.get_render_item(0).name, "a");
    assert_eq!(g.get_render_item(1).name, "c");
}

#[test]
fn set_render_item_active_toggles() {
    let mut g = Game::new();
    g.add_render_item(named_item("a"));
    assert!(g.get_render_item(0).active);
    g.set_render_item_active(0, false);
    assert!(!g.get_render_item(0).active);
}
