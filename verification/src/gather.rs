//! The two per-frame gatherers: camera selection and ambient light lookup.
//!
//! [`CameraGatherer::select`] resolves which camera renders the frame and
//! which world transform it sits at, by a three-tier rule: the designated
//! active camera if its entity carries a camera component; otherwise the
//! first entity in storage order carrying both a camera and a transform;
//! otherwise the built-in fallback camera at the identity transform.
//!
//! The view matrix is the floating-point inverse of the selected global
//! matrix, which the caller computes between the two steps;
//! [`CameraGatherer::gather`] then packs the result, and fails — rather
//! than substituting a garbage matrix — when the caller found the transform
//! singular.

use vstd::prelude::*;

use crate::mat::{Mat4, Vec3, mat4_identity, translation_of, vec3_zero};
use crate::std140::ViewArgs;
use crate::world::{Camera, WorldView, standard_2d_proj, storage_get, stored, stored_value};

verus! {

/// The camera selected for the frame: its projection matrix and the global
/// matrix of the transform it sits at.
#[derive(Clone, Copy, PartialEq, Eq, Structural, Debug)]
pub struct SelectedCamera {
    pub proj: Mat4,
    pub global_matrix: Mat4,
}

/// Why a gather call failed.
#[derive(Clone, Copy, PartialEq, Eq, Structural, Debug)]
pub enum GatherError {
    /// The selected camera's global matrix has no inverse, so no view
    /// matrix exists. Unrecoverable at this layer: a substitute view matrix
    /// would silently corrupt rendering.
    SingularTransform,
}

/// The gathered camera state of one frame: the camera's world-space
/// position and the packed projection and view matrices.
#[derive(Clone, Copy, PartialEq, Eq, Structural, Debug)]
pub struct CameraGatherer {
    pub camera_position: Vec3,
    pub projview: ViewArgs,
}

/// The ambient light gatherer; it holds no state of its own.
pub struct AmbientGatherer;

/// Whether the first selection tier applies: an active-camera reference
/// exists and its entity carries a camera component.
pub open spec fn active_camera_applies(w: WorldView) -> bool {
    w.active_camera matches Some(ac) && stored(w.cameras@, ac.entity)
}

/// The first tier's selection: the designated entity's camera, at the
/// entity's own transform if it carries one, else at the identity.
pub open spec fn active_camera_selection(w: WorldView) -> SelectedCamera {
    let e = match w.active_camera {
        Some(ac) => ac.entity,
        None => 0,
    };
    SelectedCamera {
        proj: stored_value(w.cameras@, e).proj,
        global_matrix: if stored(w.transforms@, e) {
            stored_value(w.transforms@, e).global_matrix
        } else {
            mat4_identity()
        },
    }
}

/// Whether the camera at position `i` of the camera storage also carries a
/// transform component, making it a candidate for the second tier.
pub open spec fn joined_at(w: WorldView, i: int) -> bool {
    0 <= i < w.cameras@.len() && stored(w.transforms@, w.cameras@[i].0)
}

/// The position of the first second-tier candidate in the camera storage at
/// or after position `i`, or -1 if there is none.
pub open spec fn first_join_from(w: WorldView, i: int) -> int
    decreases w.cameras@.len() - i,
{
    if i < 0 || i >= w.cameras@.len() {
        -1
    } else if joined_at(w, i) {
        i
    } else {
        first_join_from(w, i + 1)
    }
}

/// The position of the first camera whose entity also carries a transform,
/// or -1 if no entity carries both.
pub open spec fn first_join(w: WorldView) -> int {
    first_join_from(w, 0)
}

/// The second tier's selection: the camera/transform pair at position `i`
/// of the camera storage.
pub open spec fn pair_selection(w: WorldView, i: int) -> SelectedCamera {
    SelectedCamera {
        proj: w.cameras@[i].1.proj,
        global_matrix: stored_value(w.transforms@, w.cameras@[i].0).global_matrix,
    }
}

/// The third tier's selection: the built-in fallback camera at the
/// identity transform.
pub open spec fn default_selection() -> SelectedCamera {
    SelectedCamera { proj: standard_2d_proj(), global_matrix: mat4_identity() }
}

/// The camera selected for a world, by the three-tier rule.
pub open spec fn selection(w: WorldView) -> SelectedCamera {
    if active_camera_applies(w) {
        active_camera_selection(w)
    } else if first_join(w) >= 0 {
        pair_selection(w, first_join(w))
    } else {
        default_selection()
    }
}

/// The gathered camera state assembled from a selection and the view matrix
/// the caller derived from it: the position is the translation column of
/// the selected global matrix, and the packed data pairs the selected
/// projection with the view matrix.
pub open spec fn gathered(s: SelectedCamera, view: Mat4) -> CameraGatherer {
    CameraGatherer {
        camera_position: translation_of(s.global_matrix),
        projview: ViewArgs { proj: s.proj, view },
    }
}

/// What `first_join_from` finds is the least candidate position at or after
/// `i`; when it finds none, no position at or after `i` is a candidate.
pub(crate) proof fn lemma_first_join_from(w: WorldView, i: int)
    requires
        0 <= i,
    ensures
        first_join_from(w, i) == -1 ==> forall|j: int| i <= j ==> !joined_at(w, j),
        first_join_from(w, i) != -1 ==> {
            &&& i <= first_join_from(w, i) < w.cameras@.len()
            &&& joined_at(w, first_join_from(w, i))
            &&& forall|j: int| i <= j < first_join_from(w, i) ==> !joined_at(w, j)
        },
    decreases w.cameras@.len() - i,
{
    if i >= w.cameras@.len() {
        assert(forall|j: int| i <= j ==> !joined_at(w, j));
    } else if joined_at(w, i) {
    } else {
        lemma_first_join_from(w, i + 1);
    }
}

impl CameraGatherer {
    /// Resolve which camera renders the frame, by the three-tier rule:
    /// the active camera if it exists and carries a camera component, else
    /// the first camera in storage order whose entity also carries a
    /// transform, else the built-in fallback camera at the identity.
    pub fn select(world: &WorldView) -> (s: SelectedCamera)
        requires
            world.wf(),
        ensures
            s == selection(*world),
    {
        if let Some(ac) = &world.active_camera {
            if let Some(camera) = storage_get(&world.cameras, ac.entity) {
                let global_matrix = match storage_get(&world.transforms, ac.entity) {
                    Some(t) => t.global_matrix,
                    None => Mat4::identity(),
                };
                return SelectedCamera { proj: camera.proj, global_matrix };
            }
        }
        let n = world.cameras.len();
        let mut i: usize = 0;
        while i < n
            invariant
                n == world.cameras@.len(),
                0 <= i <= n,
                world.wf(),
                !active_camera_applies(*world),
                forall|k: int| 0 <= k < i ==> !joined_at(*world, k),
            decreases n - i,
        {
            let e = world.cameras[i].0;
            if let Some(t) = storage_get(&world.transforms, e) {
                proof {
                    lemma_first_join_from(*world, 0);
                    assert(joined_at(*world, i as int));
                    assert(first_join(*world) == i as int);
                }
                return SelectedCamera {
                    proj: world.cameras[i].1.proj,
                    global_matrix: t.global_matrix,
                };
            }
            i = i + 1;
        }
        proof {
            lemma_first_join_from(*world, 0);
            assert(first_join(*world) == -1);
        }
        SelectedCamera { proj: Camera::standard_2d().proj, global_matrix: Mat4::identity() }
    }

    /// Pack the gathered camera state of one frame. `inverse_global` is
    /// what the caller's floating-point inversion of
    /// `selected.global_matrix` produced: the view matrix, or `None` when
    /// the matrix is singular, in which case the gather fails instead of
    /// returning a made-up view matrix.
    pub fn gather(selected: &SelectedCamera, inverse_global: Option<Mat4>) -> (r: Result<
        CameraGatherer,
        GatherError,
    >)
        ensures
            r is Ok <==> inverse_global is Some,
            inverse_global matches Some(view) ==> r == Ok::<CameraGatherer, GatherError>(
                gathered(*selected, view),
            ),
            r is Err ==> r == Err::<CameraGatherer, GatherError>(GatherError::SingularTransform),
    {
        match inverse_global {
            Some(view) => Ok(CameraGatherer {
                camera_position: selected.global_matrix.translation(),
                projview: ViewArgs { proj: selected.proj, view },
            }),
            None => Err(GatherError::SingularTransform),
        }
    }
}

impl AmbientGatherer {
    /// The frame's ambient light color: the red, green and blue channels of
    /// the ambient color resource, or black when the world has none. The
    /// alpha channel is dropped; the channels are not clamped or otherwise
    /// transformed.
    pub fn gather(world: &WorldView) -> (c: Vec3)
        ensures
            world.ambient is None ==> c == vec3_zero(),
            world.ambient matches Some(a) ==> c == (Vec3 { x: a.red, y: a.green, z: a.blue }),
    {
        match &world.ambient {
            Some(a) => Vec3 { x: a.red, y: a.green, z: a.blue },
            None => Vec3 { x: 0, y: 0, z: 0 },
        }
    }
}

} // verus!
