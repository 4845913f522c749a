//! Instance culler: filters one render item's transforms down to the visible
//! subset for one camera and packs them into per-instance shader inputs.
//!
//! An instance is kept iff it is active and either opted out of frustum
//! testing (`cull == false`) or its bounding sphere intersects the frustum.

use vstd::prelude::*;
use vstd::seq_lib::group_seq_properties;
use crate::math::{frustum_test, sphere_visible, Plane};
use crate::types::{ShaderIn, Transform};

verus! {

/// The culling policy: an instance is drawn iff it is active and either is
/// never frustum-tested or its bounding sphere intersects the frustum.
pub open spec fn included(t: Transform, planes: Seq<Plane>) -> bool {
    t.active && (!t.cull || sphere_visible(planes, t.pos, t.scale))
}

/// The packed shader input of one instance transform.
pub open spec fn pack(t: Transform) -> ShaderIn {
    ShaderIn { world_position: t.pos, world_rotation: t.rot, world_scale: t.scale }
}

/// The packed, order-preserving projection of the included instances.
pub open spec fn cull_spec(transforms: Seq<Transform>, planes: Seq<Plane>) -> Seq<ShaderIn> {
    transforms.filter(|t: Transform| included(t, planes)).map_values(|t: Transform| pack(t))
}

/// Appending one transform extends the culled sequence by its packed form
/// exactly when the culling policy includes it.
proof fn lemma_cull_spec_push(transforms: Seq<Transform>, t: Transform, planes: Seq<Plane>)
    ensures
        cull_spec(transforms.push(t), planes) == if included(t, planes) {
            cull_spec(transforms, planes).push(pack(t))
        } else {
            cull_spec(transforms, planes)
        },
{
    reveal(Seq::filter);
    let pred = |x: Transform| included(x, planes);
    let pushed = transforms.push(t);
    assert(pushed.drop_last() =~= transforms);
    assert(pushed.last() == t);
    if included(t, planes) {
        assert(pushed.filter(pred) =~= transforms.filter(pred).push(t));
        assert(cull_spec(pushed, planes) =~= cull_spec(transforms, planes).push(pack(t)));
    } else {
        assert(pushed.filter(pred) =~= transforms.filter(pred));
        assert(cull_spec(pushed, planes) =~= cull_spec(transforms, planes));
    }
}

/// Packs the included subset of `transforms` into shader inputs, in source
/// order.
pub fn cull(transforms: &Vec<Transform>, planes: &[Plane; 6]) -> (out: Vec<ShaderIn>)
    ensures
        out@ == cull_spec(transforms@, planes@),
{
    let mut out: Vec<ShaderIn> = Vec::new();
    let mut i: usize = 0;
    while i < transforms.len()
        invariant
            i <= transforms@.len(),
            out@ == cull_spec(transforms@.take(i as int), planes@),
        decreases transforms@.len() - i,
    {
        let t = &transforms[i];
        let keep = t.active && (!t.cull || frustum_test(&t.pos, &t.scale, planes));
        proof {
            assert(transforms@.take(i + 1) =~= transforms@.take(i as int).push(transforms@[i as int]));
            lemma_cull_spec_push(transforms@.take(i as int), transforms@[i as int], planes@);
        }
        if keep {
            out.push(ShaderIn {
                world_position: t.pos,
                world_rotation: t.rot,
                world_scale: t.scale,
            });
        }
        i = i + 1;
    }
    proof {
        assert(transforms@.take(transforms@.len() as int) =~= transforms@);
    }
    out
}

/// The culler is exact: every included instance contributes its packed form
/// to the draw, and everything in the draw comes from an included instance.
pub proof fn lemma_cull_exact(transforms: Seq<Transform>, planes: Seq<Plane>)
    ensures
        forall|i: int|
            0 <= i < transforms.len() && included(#[trigger] transforms[i], planes)
                ==> cull_spec(transforms, planes).contains(pack(transforms[i])),
        forall|x: ShaderIn|
            #[trigger] cull_spec(transforms, planes).contains(x)
                ==> exists|i: int|
                0 <= i < transforms.len() && included(#[trigger] transforms[i], planes)
                    && x == pack(transforms[i]),
    decreases transforms.len(),
{
    broadcast use group_seq_properties;

    reveal(Seq::filter);
    let pred = |x: Transform| included(x, planes);
    let filtered = transforms.filter(pred);
    let culled = cull_spec(transforms, planes);
    if transforms.len() == 0 {
        assert(filtered.len() == 0);
        assert(cull_spec(transforms, planes).len() == 0);
    } else {
        let prefix = transforms.drop_last();
        let t = transforms.last();
        lemma_cull_exact(prefix, planes);
        lemma_cull_spec_push(prefix, t, planes);
        assert(prefix.push(t) =~= transforms);
        let culled_prefix = cull_spec(prefix, planes);
        assert forall|i: int|
            0 <= i < transforms.len() && included(#[trigger] transforms[i], planes) implies cull_spec(
            transforms,
            planes,
        ).contains(pack(transforms[i])) by {
            if i < prefix.len() {
                assert(prefix[i] == transforms[i]);
                assert(culled_prefix.contains(pack(transforms[i])));
                let j = choose|j: int|
                    0 <= j < culled_prefix.len() && culled_prefix[j] == pack(transforms[i]);
                assert(culled[j] == pack(transforms[i]));
            } else {
                assert(transforms[i] == t);
                assert(culled.last() == pack(t));
            }
        }
        assert forall|x: ShaderIn| #[trigger] cull_spec(transforms, planes).contains(x) implies exists|i: int|
            0 <= i < transforms.len() && included(#[trigger] transforms[i], planes)
                && x == pack(transforms[i]) by {
            let j = choose|j: int| 0 <= j < culled.len() && culled[j] == x;
            if included(t, planes) && j == culled.len() - 1 {
                let i = transforms.len() - 1;
                assert(culled[j] == pack(t));
                assert(transforms[i] == t);
                assert(included(transforms[i], planes));
                assert(x == pack(transforms[i]));
            } else {
                assert(0 <= j < culled_prefix.len());
                assert(culled_prefix[j] == culled[j]);
                assert(culled_prefix.contains(x));
                let i = choose|i: int|
                    0 <= i < prefix.len() && included(#[trigger] prefix[i], planes)
                        && x == pack(prefix[i]);
                assert(transforms[i] == prefix[i]);
                assert(included(transforms[i], planes));
                assert(x == pack(transforms[i]));
            }
        }
    }
}

} // verus!
