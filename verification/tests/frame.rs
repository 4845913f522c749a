use caper::game::Game;
use caper::math::Mat4;
use caper::types::{
    Camera, Material, PhysicsType, RenderItem, TextItem, Transform, Vector3, FP_ONE,
};

fn identity_view() -> Mat4 {
    let mut m: Mat4 = [[0; 4]; 4];
    for c in 0..4 {
        m[c][c] = 1;
    }
    m
}

fn shifted_view(dx: i64) -> Mat4 {
    let mut m = identity_view();
    m[3][0] = dx;
    m
}

fn textured_item(name: &str, texture: Option<&str>, positions: &[Vector3]) -> RenderItem {
    let mut transforms: Vec<Transform> = Vec::new();
    for p in positions {
        let mut t = Transform::at_pos(*p);
        t.cull = true;
        transforms.push(t);
    }
    RenderItem {
        name: name.to_owned(),
        vertices: Vec::new(),
        material: Material {
            shader_name: "height".to_owned(),
            texture_name: texture.map(|t| t.to_owned()),
            normal_texture_name: None,
        },
        physics_type: PhysicsType::Off,
        instance_transforms: transforms,
        active: true,
    }
}

#[test]
fn render_count_sums_over_two_cameras() {
    // two cameras, two instances; by construction each camera sees exactly
    // one of them, so the frame draws one instance per camera
    let mut g = Game::new();
    g.cams.push(Camera {
        pos: Vector3 { x: 10 * FP_ONE, y: 0, z: 0 },
        euler_rot: Vector3 { x: 0, y: 0, z: 0 },
    });
    let near = Vector3 { x: 0, y: 0, z: 0 };
    let far = Vector3 { x: 10 * FP_ONE, y: 0, z: 0 };
    g.add_render_item(textured_item("both", None, &[near, far]));

    let proj = identity_view();
    let views = vec![identity_view(), shifted_view(-(10 * FP_ONE as i64))];
    let plan = {
        let renderer = &mut g.renderer;
        renderer.build_frame(&g.cams, &g.render_items, &g.text_items, &proj, &views, 800, 600)
    };
    assert_eq!(plan.render_count, 2);
    assert_eq!(g.renderer.render_count, 2);
    assert_eq!(plan.batches.len(), 2);
    assert_eq!(plan.batches[0].cam, 0);
    assert_eq!(plan.batches[1].cam, 1);
    assert_eq!(plan.batches[0].instances.len(), 1);
    assert_eq!(plan.batches[1].instances.len(), 1);
    assert_eq!(plan.batches[0].instances[0].world_position, near);
    assert_eq!(plan.batches[1].instances[0].world_position, far);
}

#[test]
fn inactive_items_and_empty_culls_are_skipped() {
    let mut g = Game::new();
    let mut hidden = textured_item("hidden", None, &[Vector3 { x: 0, y: 0, z: 0 }]);
    hidden.active = false;
    g.add_render_item(hidden);
    // outside the identity frustum, and opted in to culling
    g.add_render_item(textured_item(
        "far",
        None,
        &[Vector3 { x: 100 * FP_ONE, y: 0, z: 0 }],
    ));
    // no instances at all
    g.add_render_item(textured_item("bare", None, &[]));

    let proj = identity_view();
    let views = vec![identity_view()];
    let plan = {
        let renderer = &mut g.renderer;
        renderer.build_frame(&g.cams, &g.render_items, &g.text_items, &proj, &views, 800, 600)
    };
    assert_eq!(plan.render_count, 0);
    assert!(plan.batches.is_empty());
}

#[test]
fn missing_texture_falls_back_to_default() {
    let mut g = Game::new();
    g.add_render_item(textured_item("skin", Some("bark"), &[Vector3 { x: 0, y: 0, z: 0 }]));
    g.add_render_item(textured_item("plain", None, &[Vector3 { x: 0, y: 0, z: 0 }]));
    let proj = identity_view();
    let views = vec![identity_view()];
    let plan = {
        let renderer = &mut g.renderer;
        renderer.build_frame(&g.cams, &g.render_items, &g.text_items, &proj, &views, 800, 600)
    };
    assert_eq!(plan.batches.len(), 2);
    assert_eq!(plan.batches[0].texture_name, "bark");
    assert_eq!(plan.batches[0].normal_texture_name, "default_normal");
    assert_eq!(plan.batches[1].texture_name, "default");
    assert_eq!(plan.batches[1].shader_name, "height");
}

#[test]
fn composite_slots_reuse_camera_zero() {
    let mut g = Game::new();
    g.cams.push(Camera {
        pos: Vector3 { x: 0, y: 0, z: 0 },
        euler_rot: Vector3 { x: 0, y: 0, z: 0 },
    });
    let proj = identity_view();
    let views = vec![identity_view(), identity_view()];
    let plan = {
        let renderer = &mut g.renderer;
        renderer.build_frame(&g.cams, &g.render_items, &g.text_items, &proj, &views, 800, 600)
    };
    assert_eq!(plan.composite_sources, vec![0, 1, 0, 0, 0, 0]);
}

#[test]
fn text_draws_cover_active_items_in_order() {
    let mut g = Game::new();
    g.add_text_item(TextItem {
        name: "title".to_owned(),
        text: "caper".to_owned(),
        pos: Vector3 { x: FP_ONE, y: 2 * FP_ONE, z: 0 },
        scale: Vector3 { x: FP_ONE, y: FP_ONE, z: FP_ONE },
        color: caper::types::Color { r: FP_ONE, g: FP_ONE, b: FP_ONE, a: FP_ONE },
        active: true,
    });
    g.add_text_item(TextItem {
        name: "hidden".to_owned(),
        text: "x".to_owned(),
        pos: Vector3 { x: 0, y: 0, z: 0 },
        scale: Vector3 { x: FP_ONE, y: FP_ONE, z: FP_ONE },
        color: caper::types::Color { r: 0, g: 0, b: 0, a: FP_ONE },
        active: false,
    });
    let proj = identity_view();
    let views = vec![identity_view()];
    let plan = {
        let renderer = &mut g.renderer;
        renderer.build_frame(&g.cams, &g.render_items, &g.text_items, &proj, &views, 800, 600)
    };
    assert_eq!(plan.text_draws.len(), 1);
    let d = plan.text_draws[0];
    assert_eq!(d.index, 0);
    // diagonal: 0.02 * scale, vertical entry corrected by width / height
    assert_eq!(d.m00, 2 * (FP_ONE as i64) * 600);
    assert_eq!(d.m11, 2 * (FP_ONE as i64) * 800);
    assert_eq!(d.m22, 2 * (FP_ONE as i64) * 600);
    // translation: the position itself over the common denominator
    assert_eq!(d.den, 100 * 600 * (FP_ONE as i64));
    assert_eq!(d.tx, 100 * 600 * (FP_ONE as i64));
    assert_eq!(d.ty, 100 * 600 * 2 * (FP_ONE as i64));
    assert_eq!(d.tz, 0);
}
