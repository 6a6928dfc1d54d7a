//! A read-only snapshot of the world state the gatherers consume.
//!
//! The surrounding engine owns the entity-component world. Before a frame is
//! gathered, the caller copies the handful of values the gatherers read into
//! a [`WorldView`]: the optional active-camera reference, the camera and
//! transform component storages (as lists of entity/component pairs in the
//! storages' stable iteration order), and the optional ambient color
//! resource. The view holds plain owned data and no references back into the
//! engine's world.

use vstd::prelude::*;

use crate::mat::{Mat4, Vec4, F32_ONE_BITS, F32_NEG_ONE_BITS};

verus! {

/// An entity identifier.
pub type Entity = u64;

/// The singleton resource naming the entity whose camera renders the frame.
#[derive(Clone, Copy, PartialEq, Eq, Structural, Debug)]
pub struct ActiveCamera {
    pub entity: Entity,
}

/// A camera component: the projection matrix mapping camera space to clip
/// space, already at 32-bit float precision.
#[derive(Clone, Copy, PartialEq, Eq, Structural, Debug)]
pub struct Camera {
    pub proj: Mat4,
}

/// A transform component: the entity's global matrix, its local transform
/// already resolved through any parent hierarchy into world space.
#[derive(Clone, Copy, PartialEq, Eq, Structural, Debug)]
pub struct Transform {
    pub global_matrix: Mat4,
}

/// The singleton ambient light resource: an RGBA color, each channel a
/// 32-bit float bit pattern.
#[derive(Clone, Copy, PartialEq, Eq, Structural, Debug)]
pub struct AmbientColor {
    pub red: u32,
    pub green: u32,
    pub blue: u32,
    pub alpha: u32,
}

/// The projection of the built-in fallback camera: a standard
/// two-dimensional orthographic projection of the axis-aligned unit cube
/// (scale one in x and y, z negated, no translation).
pub open spec fn standard_2d_proj() -> Mat4 {
    Mat4 {
        c0: Vec4 { x: F32_ONE_BITS, y: 0, z: 0, w: 0 },
        c1: Vec4 { x: 0, y: F32_ONE_BITS, z: 0, w: 0 },
        c2: Vec4 { x: 0, y: 0, z: F32_NEG_ONE_BITS, w: 0 },
        c3: Vec4 { x: 0, y: 0, z: 0, w: F32_ONE_BITS },
    }
}

impl Camera {
    /// The built-in fallback camera with the standard two-dimensional
    /// orthographic projection.
    pub fn standard_2d() -> (c: Camera)
        ensures
            c.proj == standard_2d_proj(),
    {
        Camera {
            proj: Mat4 {
                c0: Vec4 { x: F32_ONE_BITS, y: 0, z: 0, w: 0 },
                c1: Vec4 { x: 0, y: F32_ONE_BITS, z: 0, w: 0 },
                c2: Vec4 { x: 0, y: 0, z: F32_NEG_ONE_BITS, w: 0 },
                c3: Vec4 { x: 0, y: 0, z: 0, w: F32_ONE_BITS },
            },
        }
    }
}

/// A component storage is a list of entity/component pairs; each entity
/// carries at most one component, so the keys are distinct. The list order
/// is the storage's stable iteration order.
pub open spec fn storage_wf<T>(s: Seq<(Entity, T)>) -> bool {
    forall|i: int, j: int| 0 <= i < j < s.len() ==> s[i].0 != s[j].0
}

/// Whether entity `e` carries a component in storage `s`.
pub open spec fn stored<T>(s: Seq<(Entity, T)>, e: Entity) -> bool {
    exists|i: int| 0 <= i < s.len() && s[i].0 == e
}

/// The component entity `e` carries in storage `s` (meaningful when the
/// storage is well formed and the entity is present).
pub open spec fn stored_value<T>(s: Seq<(Entity, T)>, e: Entity) -> T {
    s[choose|i: int| 0 <= i < s.len() && s[i].0 == e].1
}

/// The snapshot of world state a single gather call reads.
pub struct WorldView {
    /// The active-camera reference, if one is configured.
    pub active_camera: Option<ActiveCamera>,
    /// The camera component storage.
    pub cameras: Vec<(Entity, Camera)>,
    /// The transform component storage.
    pub transforms: Vec<(Entity, Transform)>,
    /// The ambient light resource, if one is present.
    pub ambient: Option<AmbientColor>,
}

impl WorldView {
    /// Both component storages list each entity at most once.
    pub open spec fn wf(self) -> bool {
        &&& storage_wf(self.cameras@)
        &&& storage_wf(self.transforms@)
    }
}

/// Look up the component of entity `e` in a storage, scanning in storage
/// order. Returns the component if the entity carries one.
pub fn storage_get<T: Copy>(s: &Vec<(Entity, T)>, e: Entity) -> (r: Option<T>)
    requires
        storage_wf(s@),
    ensures
        r is Some <==> stored(s@, e),
        r matches Some(v) ==> v == stored_value(s@, e),
{
    let n = s.len();
    let mut i: usize = 0;
    while i < n
        invariant
            n == s@.len(),
            0 <= i <= n,
            forall|k: int| 0 <= k < i ==> s@[k].0 != e,
            storage_wf(s@),
        decreases n - i,
    {
        if s[i].0 == e {
            proof {
                assert(stored(s@, e));
                let j = choose|j: int| 0 <= j < s@.len() && s@[j].0 == e;
                assert(j == i);
            }
            return Some(s[i].1);
        }
        i = i + 1;
    }
    proof {
        assert(!stored(s@, e));
    }
    None
}

} // verus!
