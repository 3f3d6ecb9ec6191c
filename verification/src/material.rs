//! The material descriptor: the long-lived logical entity of the adapter.

use vstd::prelude::*;

verus! {

/// Opaque reference to a 2D image resource. The image's lifetime is owned by
/// an external asset registry; the material only holds the key.
pub type ImageRef = u64;

/// IEEE-754 single-precision bit pattern of `1.0`.
pub const ONE_F32_BITS: u32 = 0x3F80_0000;

/// IEEE-754 single-precision bit pattern of `-1.0`.
pub const NEG_ONE_F32_BITS: u32 = 0xBF80_0000;

/// IEEE-754 single-precision bit pattern of `0.0`.
pub const ZERO_F32_BITS: u32 = 0;

/// A four-component light/normal direction vector.
///
/// Each component is the IEEE-754 single-precision bit pattern of the
/// intended value. The adapter never does arithmetic on the components; it
/// only forwards their bytes into a uniform buffer, so holding the raw bit
/// patterns loses nothing and keeps the whole pipeline exact. `x`, `y`, `z`
/// carry the direction; `w` is a mode flag telling an inward-facing skybox
/// apart from an outward-facing object.
#[derive(Clone, Copy, Debug, PartialEq, Eq, Structural)]
pub struct Direction {
    pub x: u32,
    pub y: u32,
    pub z: u32,
    pub w: u32,
}

/// Material descriptor: direction vector, source image reference, and the
/// readiness flag that gates GPU preparation.
///
/// `ready` becomes true once the source image has been detected, validated
/// and reinterpreted into a six-layer cube texture (or was found already
/// converted); it is reset to false whenever `source_image` is reassigned.
#[derive(Clone, Copy, Debug, PartialEq, Eq, Structural)]
pub struct CubemapMaterial {
    pub direction: Direction,
    pub source_image: ImageRef,
    pub ready: bool,
}

/// Direction of the inward-facing skybox sphere: `(-1, -1, -1, 0)`.
pub open spec fn skybox_direction() -> Direction {
    Direction {
        x: NEG_ONE_F32_BITS,
        y: NEG_ONE_F32_BITS,
        z: NEG_ONE_F32_BITS,
        w: ZERO_F32_BITS,
    }
}

/// Direction of the outward-facing objects (sphere and dragon): `(1, 1, 1, 1)`.
pub open spec fn object_direction() -> Direction {
    Direction { x: ONE_F32_BITS, y: ONE_F32_BITS, z: ONE_F32_BITS, w: ONE_F32_BITS }
}

/// A descriptor as it stands right after its source image was reassigned:
/// same direction, new reference, readiness revoked.
pub open spec fn reassigned(m: CubemapMaterial, image: ImageRef) -> CubemapMaterial {
    CubemapMaterial { direction: m.direction, source_image: image, ready: false }
}

impl CubemapMaterial {
    /// A fresh descriptor for a source image that has not been converted yet.
    pub fn new(direction: Direction, source_image: ImageRef) -> (m: CubemapMaterial)
        ensures
            m == (CubemapMaterial { direction, source_image, ready: false }),
    {
        CubemapMaterial { direction, source_image, ready: false }
    }

    /// Point this descriptor at a new source image. Readiness is revoked
    /// immediately; the next readiness step decides whether the new reference
    /// is already converted.
    pub fn reassign(&mut self, image: ImageRef)
        ensures
            *final(self) == reassigned(*old(self), image),
    {
        self.source_image = image;
        self.ready = false;
    }
}

/// The three descriptors the viewer starts with: an inverted skybox sphere,
/// a regular sphere and a dragon model, all sharing one source texture.
pub fn initial_materials(texture: ImageRef) -> (mats: Vec<CubemapMaterial>)
    ensures
        mats@.len() == 3,
        mats@[0] == (CubemapMaterial {
            direction: skybox_direction(),
            source_image: texture,
            ready: false,
        }),
        mats@[1] == (CubemapMaterial {
            direction: object_direction(),
            source_image: texture,
            ready: false,
        }),
        mats@[2] == (CubemapMaterial {
            direction: object_direction(),
            source_image: texture,
            ready: false,
        }),
{
    let skybox = Direction {
        x: NEG_ONE_F32_BITS,
        y: NEG_ONE_F32_BITS,
        z: NEG_ONE_F32_BITS,
        w: ZERO_F32_BITS,
    };
    let object = Direction { x: ONE_F32_BITS, y: ONE_F32_BITS, z: ONE_F32_BITS, w: ONE_F32_BITS };
    let mut mats: Vec<CubemapMaterial> = Vec::new();
    mats.push(CubemapMaterial::new(skybox, texture));
    mats.push(CubemapMaterial::new(object, texture));
    mats.push(CubemapMaterial::new(object, texture));
    mats
}

/// Point every live descriptor at a new source image, as the viewer does when
/// a new environment texture is loaded. Each descriptor keeps its direction,
/// takes the new reference, and has its readiness revoked immediately —
/// whether or not the new reference is already converted.
pub fn reassign_texture(materials: &mut Vec<CubemapMaterial>, image: ImageRef)
    ensures
        final(materials)@.len() == old(materials)@.len(),
        forall|i: int|
            0 <= i < old(materials)@.len() ==> final(materials)@[i] == reassigned(
                old(materials)@[i],
                image,
            ),
{
    let n = materials.len();
    for i in 0..n
        invariant
            n == materials@.len(),
            n == old(materials)@.len(),
            forall|j: int| 0 <= j < i ==> materials@[j] == reassigned(old(materials)@[j], image),
            forall|j: int| i <= j < n ==> materials@[j] == old(materials)@[j],
    {
        let direction = materials[i].direction;
        materials[i] = CubemapMaterial { direction, source_image: image, ready: false };
    }
}

} // verus!
