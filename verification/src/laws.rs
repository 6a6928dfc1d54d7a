//! The guarantees the selection and packing rules give, stated on their own.

use vstd::prelude::*;

use crate::gather::{
    SelectedCamera, active_camera_applies, first_join, gathered, joined_at, lemma_first_join_from,
    pair_selection, selection,
};
use crate::mat::{Mat4, Vec3, mat4_identity};
use crate::world::{ActiveCamera, WorldView, standard_2d_proj, stored, stored_value};

verus! {

/// A designated active camera always wins: when the active-camera reference
/// names an entity that carries a camera component, that camera is
/// selected, no matter how many other camera entities the world holds; it
/// sits at the entity's own transform if the entity carries one, else at
/// the identity.
pub proof fn lemma_active_camera_wins(w: WorldView, ac: ActiveCamera)
    requires
        w.wf(),
        w.active_camera == Some(ac),
        stored(w.cameras@, ac.entity),
    ensures
        selection(w).proj == stored_value(w.cameras@, ac.entity).proj,
        stored(w.transforms@, ac.entity) ==> selection(w).global_matrix == stored_value(
            w.transforms@,
            ac.entity,
        ).global_matrix,
        !stored(w.transforms@, ac.entity) ==> selection(w).global_matrix == mat4_identity(),
{
}

/// Without an applicable active camera, any world holding at least one
/// entity with both a camera and a transform has one of those pairs
/// selected — never the fallback camera.
pub proof fn lemma_pair_fallback(w: WorldView)
    requires
        w.wf(),
        !active_camera_applies(w),
        exists|i: int| joined_at(w, i),
    ensures
        exists|i: int| joined_at(w, i) && selection(w) == pair_selection(w, i),
{
    lemma_first_join_least(w);
    let f = first_join(w);
    assert(joined_at(w, f) && selection(w) == pair_selection(w, f));
}

/// In a world with no camera entities at all, the fallback is selected: the
/// standard two-dimensional orthographic projection at the identity
/// transform (whose view matrix is again the identity).
pub proof fn lemma_default_when_no_cameras(w: WorldView)
    requires
        w.cameras@.len() == 0,
    ensures
        selection(w).proj == standard_2d_proj(),
        selection(w).global_matrix == mat4_identity(),
{
    assert(!active_camera_applies(w));
    assert(first_join(w) == -1);
}

/// The fallback is selected exactly when the two earlier tiers find
/// nothing: no applicable active camera, and no entity carrying both a
/// camera and a transform.
pub proof fn lemma_default_when_no_pairs(w: WorldView)
    requires
        !active_camera_applies(w),
        forall|i: int| !joined_at(w, i),
    ensures
        selection(w).proj == standard_2d_proj(),
        selection(w).global_matrix == mat4_identity(),
{
    lemma_first_join_least(w);
}

/// The first selected pair really is the first: `first_join` names a
/// candidate position whenever one exists, and the least one.
pub proof fn lemma_first_join_least(w: WorldView)
    ensures
        (exists|i: int| joined_at(w, i)) <==> first_join(w) >= 0,
        first_join(w) >= 0 ==> joined_at(w, first_join(w)) && forall|j: int|
            0 <= j < first_join(w) ==> !joined_at(w, j),
{
    lemma_first_join_from(w, 0);
    if exists|i: int| joined_at(w, i) {
        let i = choose|i: int| joined_at(w, i);
        assert(0 <= i);
        assert(first_join(w) != -1);
    }
}

/// The gathered camera position is exactly the translation column of the
/// selected global matrix.
pub proof fn lemma_camera_position_is_translation(s: SelectedCamera, view: Mat4)
    ensures
        gathered(s, view).camera_position == (Vec3 {
            x: s.global_matrix.c3.x,
            y: s.global_matrix.c3.y,
            z: s.global_matrix.c3.z,
        }),
{
}

/// The gathered camera position depends on nothing but that translation
/// column: two selections whose global matrices share their fourth column
/// gather the same position, whatever their rotation and scale parts or
/// their view matrices.
pub proof fn lemma_camera_position_ignores_rotation_scale(
    s1: SelectedCamera,
    view1: Mat4,
    s2: SelectedCamera,
    view2: Mat4,
)
    requires
        s1.global_matrix.c3 == s2.global_matrix.c3,
    ensures
        gathered(s1, view1).camera_position == gathered(s2, view2).camera_position,
{
}

} // verus!
