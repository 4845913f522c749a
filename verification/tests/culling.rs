use caper::culling::cull;
use caper::math::{frustum_test, get_frustum_planes, mul_mat4, Mat4, Plane};
use caper::types::{Quaternion, Transform, Vector3, FP_ONE};

fn identity_mat() -> Mat4 {
    let mut m: Mat4 = [[0; 4]; 4];
    for c in 0..4 {
        m[c][c] = 1;
    }
    m
}

fn unit_transform(pos: Vector3, active: bool, cull_flag: bool) -> Transform {
    Transform {
        pos,
        rot: Quaternion { x: 0, y: 0, z: 0, w: FP_ONE },
        scale: Vector3 { x: FP_ONE, y: FP_ONE, z: FP_ONE },
        active,
        cull: cull_flag,
    }
}

fn open_frustum() -> [Plane; 6] {
    let p = Plane { a: 0, b: 0, c: 0, d: 1 };
    [p, p, p, p, p, p]
}

#[test]
fn mul_mat4_identity() {
    let i = identity_mat();
    let mut a: Mat4 = [[0; 4]; 4];
    let mut v: i64 = 1;
    for c in 0..4 {
        for r in 0..4 {
            a[c][r] = v;
            v += 1;
        }
    }
    assert_eq!(mul_mat4(&i, &a), a);
    assert_eq!(mul_mat4(&a, &i), a);
}

#[test]
fn frustum_planes_of_identity() {
    // the identity matrix yields the six planes x,y,z within +-1 (row 3
    // plus or minus rows 0..2)
    let planes = get_frustum_planes(&identity_mat());
    assert_eq!(planes[0], Plane { a: 1, b: 0, c: 0, d: 1 });
    assert_eq!(planes[1], Plane { a: -1, b: 0, c: 0, d: 1 });
    assert_eq!(planes[2], Plane { a: 0, b: 1, c: 0, d: 1 });
    assert_eq!(planes[3], Plane { a: 0, b: -1, c: 0, d: 1 });
    assert_eq!(planes[4], Plane { a: 0, b: 0, c: 1, d: 1 });
    assert_eq!(planes[5], Plane { a: 0, b: 0, c: -1, d: 1 });
}

#[test]
fn frustum_test_inside_and_outside() {
    let planes = get_frustum_planes(&identity_mat());
    let scale = Vector3 { x: FP_ONE, y: FP_ONE, z: FP_ONE };
    // at the origin: distance 1 from every plane, well inside
    assert!(frustum_test(&Vector3 { x: 0, y: 0, z: 0 }, &scale, &planes));
    // the radius heuristic is 2.5 * max scale = 2560 fixed units; a point
    // at x = -2561 - 1 fails the left plane, x = -2561 still touches
    assert!(frustum_test(&Vector3 { x: -2561, y: 0, z: 0 }, &scale, &planes));
    assert!(!frustum_test(&Vector3 { x: -2562, y: 0, z: 0 }, &scale, &planes));
    // ten units away on y: outside
    assert!(!frustum_test(&Vector3 { x: 0, y: 10 * FP_ONE, z: 0 }, &scale, &planes));
}

#[test]
fn cull_excludes_inactive() {
    let ts = vec![
        unit_transform(Vector3 { x: 0, y: 0, z: 0 }, false, false),
        unit_transform(Vector3 { x: 1, y: 2, z: 3 }, true, false),
    ];
    let out = cull(&ts, &open_frustum());
    assert_eq!(out.len(), 1);
    assert_eq!(out[0].world_position, Vector3 { x: 1, y: 2, z: 3 });
}

#[test]
fn cull_keeps_unculled_regardless_of_frustum() {
    // a frustum that rejects everything, radius heuristic included
    let shut = Plane { a: 0, b: 0, c: 0, d: -10000 };
    let planes = [shut, shut, shut, shut, shut, shut];
    let far = Vector3 { x: 1000 * FP_ONE, y: 0, z: 0 };
    let ts = vec![
        unit_transform(far, true, false),
        unit_transform(far, true, true),
    ];
    let out = cull(&ts, &planes);
    // the cull == false instance is kept even though the frustum misses it;
    // the cull == true instance is dropped
    assert_eq!(out.len(), 1);
    assert_eq!(out[0].world_position, far);
}

#[test]
fn cull_frustum_tests_marked_instances() {
    let planes = get_frustum_planes(&identity_mat());
    let ts = vec![
        unit_transform(Vector3 { x: 0, y: 0, z: 0 }, true, true),
        unit_transform(Vector3 { x: 10 * FP_ONE, y: 0, z: 0 }, true, true),
    ];
    let out = cull(&ts, &planes);
    assert_eq!(out.len(), 1);
    assert_eq!(out[0].world_position, Vector3 { x: 0, y: 0, z: 0 });
}

#[test]
fn cull_packs_in_source_order() {
    let a = unit_transform(Vector3 { x: 1, y: 0, z: 0 }, true, false);
    let b = unit_transform(Vector3 { x: 2, y: 0, z: 0 }, true, false);
    let c = unit_transform(Vector3 { x: 3, y: 0, z: 0 }, true, false);
    let out = cull(&vec![a, b, c], &open_frustum());
    assert_eq!(out.len(), 3);
    assert_eq!(out[0].world_position.x, 1);
    assert_eq!(out[1].world_position.x, 2);
    assert_eq!(out[2].world_position.x, 3);
    assert_eq!(out[1].world_scale, b.scale);
    assert_eq!(out[1].world_rotation, b.rot);
}

#[test]
fn cull_of_empty_list_is_empty() {
    let out = cull(&Vec::new(), &open_frustum());
    assert!(out.is_empty());
}

#[test]
fn radius_heuristic_uses_largest_scale_component() {
    let planes = get_frustum_planes(&identity_mat());
    // radius = 2.5 * max(scale); the wide x extent keeps a distant point in
    let wide = Vector3 { x: 5 * FP_ONE, y: FP_ONE, z: FP_ONE };
    let p = Vector3 { x: -12801, y: 0, z: 0 };
    assert!(frustum_test(&p, &wide, &planes));
    assert!(!frustum_test(&Vector3 { x: -12802, y: 0, z: 0 }, &wide, &planes));
    // with unit scale the same point is far outside
    let unit = Vector3 { x: FP_ONE, y: FP_ONE, z: FP_ONE };
    assert!(!frustum_test(&p, &unit, &planes));
}
