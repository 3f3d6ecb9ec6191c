//! The readiness / conversion step: once per tick, for every live material
//! descriptor, decide whether its source image may be treated as a cube map,
//! and perform the one-time strip-to-cube reinterpretation.

use vstd::prelude::*;

use crate::image::{reinterpreted, Image, ImageStore, CUBE_FACES};
use crate::material::{CubemapMaterial, ImageRef};
use crate::registry::ConvertedTextures;

verus! {

/// What one readiness step decided for one descriptor.
#[derive(Clone, Copy, Debug, PartialEq, Eq, Structural)]
pub enum ReadinessOutcome {
    /// The source reference was already in the conversion registry; the
    /// descriptor was marked ready without touching the image.
    AlreadyConverted,
    /// The raw image was found, validated, and reinterpreted as six layers
    /// now; the reference was added to the registry and the descriptor marked
    /// ready.
    Converted,
    /// The asynchronous load of the source image is still pending; nothing
    /// changed, retry on a later tick.
    Pending,
    /// The image is loaded but its height is not a multiple of six, so it
    /// cannot be cut into six equal faces; nothing changed and a diagnostic
    /// is due. The descriptor stays unready until its source is reassigned.
    Malformed,
}

/// The decision one readiness step takes for descriptor `m` against image
/// store `images` and registry `reg`.
pub open spec fn step_outcome(
    m: CubemapMaterial,
    images: Map<ImageRef, Image>,
    reg: Set<ImageRef>,
) -> ReadinessOutcome {
    if reg.contains(m.source_image) {
        ReadinessOutcome::AlreadyConverted
    } else if !images.contains_key(m.source_image) {
        ReadinessOutcome::Pending
    } else if images[m.source_image].height % CUBE_FACES != 0 {
        ReadinessOutcome::Malformed
    } else {
        ReadinessOutcome::Converted
    }
}

/// The descriptor after one readiness step: ready on a registry hit or a
/// fresh conversion, otherwise untouched.
pub open spec fn step_material(
    m: CubemapMaterial,
    images: Map<ImageRef, Image>,
    reg: Set<ImageRef>,
) -> CubemapMaterial {
    match step_outcome(m, images, reg) {
        ReadinessOutcome::AlreadyConverted => CubemapMaterial { ready: true, ..m },
        ReadinessOutcome::Converted => CubemapMaterial { ready: true, ..m },
        ReadinessOutcome::Pending => m,
        ReadinessOutcome::Malformed => m,
    }
}

/// The image store after one readiness step: only a fresh conversion rewrites
/// the source image's layout, in place.
pub open spec fn step_images(
    m: CubemapMaterial,
    images: Map<ImageRef, Image>,
    reg: Set<ImageRef>,
) -> Map<ImageRef, Image> {
    if step_outcome(m, images, reg) is Converted {
        images.insert(m.source_image, reinterpreted(images[m.source_image]))
    } else {
        images
    }
}

/// The registry after one readiness step: only a fresh conversion adds the
/// source reference; nothing is ever removed.
pub open spec fn step_registry(
    m: CubemapMaterial,
    images: Map<ImageRef, Image>,
    reg: Set<ImageRef>,
) -> Set<ImageRef> {
    if step_outcome(m, images, reg) is Converted {
        reg.insert(m.source_image)
    } else {
        reg
    }
}

/// One readiness step for one descriptor.
///
/// If the source reference is already registered as converted, the descriptor
/// is marked ready and nothing else is touched. Otherwise the raw image is
/// fetched: while the load is pending nothing changes; a loaded image whose
/// height is an exact multiple of six is reinterpreted in place as six equal
/// array layers, registered, and the descriptor marked ready; a loaded image
/// of any other height changes nothing and the caller owes one diagnostic.
pub fn readiness_step(
    material: &mut CubemapMaterial,
    images: &mut ImageStore,
    converted: &mut ConvertedTextures,
) -> (outcome: ReadinessOutcome)
    ensures
        outcome == step_outcome(*old(material), old(images)@, old(converted)@),
        *final(material) == step_material(*old(material), old(images)@, old(converted)@),
        final(images)@ == step_images(*old(material), old(images)@, old(converted)@),
        final(converted)@ == step_registry(*old(material), old(images)@, old(converted)@),
{
    if converted.contains(material.source_image) {
        material.ready = true;
        ReadinessOutcome::AlreadyConverted
    } else {
        match images.get(material.source_image) {
            None => ReadinessOutcome::Pending,
            Some(img) => {
                if img.height % CUBE_FACES != 0 {
                    ReadinessOutcome::Malformed
                } else {
                    let mut cube = img;
                    cube.reinterpret_stacked_2d_as_array();
                    images.insert(material.source_image, cube);
                    converted.insert(material.source_image);
                    material.ready = true;
                    ReadinessOutcome::Converted
                }
            },
        }
    }
}

/// Everything one readiness pass over a sequence of descriptors produces: the
/// stepped descriptors in order, the image store and registry it leaves
/// behind, and how many malformed-source diagnostics fell due.
pub struct PassResult {
    pub materials: Seq<CubemapMaterial>,
    pub images: Map<ImageRef, Image>,
    pub registry: Set<ImageRef>,
    pub diagnostics: nat,
}

/// One readiness pass: the descriptors are stepped left to right, each one
/// against the image store and registry the previous steps left behind —
/// so a conversion done for an early descriptor already short-circuits a
/// later descriptor sharing the same reference, within the same tick.
pub open spec fn pass(
    mats: Seq<CubemapMaterial>,
    images: Map<ImageRef, Image>,
    reg: Set<ImageRef>,
) -> PassResult
    decreases mats.len(),
{
    if mats.len() == 0 {
        PassResult { materials: Seq::empty(), images, registry: reg, diagnostics: 0 }
    } else {
        let prev = pass(mats.drop_last(), images, reg);
        let m = mats.last();
        PassResult {
            materials: prev.materials.push(step_material(m, prev.images, prev.registry)),
            images: step_images(m, prev.images, prev.registry),
            registry: step_registry(m, prev.images, prev.registry),
            diagnostics: prev.diagnostics + if step_outcome(m, prev.images, prev.registry)
                is Malformed {
                1nat
            } else {
                0nat
            },
        }
    }
}

/// One readiness pass over all live descriptors, in order. Returns how many
/// descriptors hit a malformed source this tick: one diagnostic is due per
/// affected descriptor per tick attempted.
pub fn convert_to_cube(
    materials: &mut Vec<CubemapMaterial>,
    images: &mut ImageStore,
    converted: &mut ConvertedTextures,
) -> (diagnostics: usize)
    ensures
        final(materials)@ == pass(old(materials)@, old(images)@, old(converted)@).materials,
        final(images)@ == pass(old(materials)@, old(images)@, old(converted)@).images,
        final(converted)@ == pass(old(materials)@, old(images)@, old(converted)@).registry,
        diagnostics == pass(old(materials)@, old(images)@, old(converted)@).diagnostics,
{
    let ghost mats0 = materials@;
    let ghost images0 = images@;
    let ghost reg0 = converted@;
    let mut diagnostics: usize = 0;
    let n = materials.len();
    for i in 0..n
        invariant
            n == materials@.len(),
            n == mats0.len(),
            materials@.subrange(0, i as int) == pass(mats0.take(i as int), images0, reg0).materials,
            forall|j: int| i <= j < n ==> materials@[j] == mats0[j],
            images@ == pass(mats0.take(i as int), images0, reg0).images,
            converted@ == pass(mats0.take(i as int), images0, reg0).registry,
            diagnostics == pass(mats0.take(i as int), images0, reg0).diagnostics,
            diagnostics <= i,
    {
        let outcome = readiness_step(&mut materials[i], images, converted);
        if outcome == ReadinessOutcome::Malformed {
            diagnostics = diagnostics + 1;
        }
        proof {
            assert(mats0.take(i + 1).drop_last() =~= mats0.take(i as int));
            assert(mats0.take(i + 1).last() == mats0[i as int]);
            assert(materials@.subrange(0, i + 1) =~= materials@.subrange(0, i as int).push(
                materials@[i as int],
            ));
        }
    }
    proof {
        assert(mats0.take(n as int) =~= mats0);
        assert(materials@.subrange(0, n as int) =~= materials@);
    }
    diagnostics
}

} // verus!
