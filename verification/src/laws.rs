//! Laws of the readiness handshake, stated over the spec-level transitions
//! of `crate::readiness` and proved once and for all.

use vstd::prelude::*;

use crate::image::{Image, CUBE_FACES};
use crate::material::{reassigned, CubemapMaterial, ImageRef};
use crate::readiness::{
    pass, step_images, step_material, step_outcome, step_registry, ReadinessOutcome,
};

verus! {

/// Conversion registry membership is monotonic: whatever a readiness pass
/// does, every reference that was in the registry before is still in it after.
pub proof fn lemma_pass_registry_monotone(
    mats: Seq<CubemapMaterial>,
    images: Map<ImageRef, Image>,
    reg: Set<ImageRef>,
)
    ensures
        forall|r: ImageRef|
            reg.contains(r) ==> #[trigger] pass(mats, images, reg).registry.contains(r),
    decreases mats.len(),
{
    if mats.len() > 0 {
        lemma_pass_registry_monotone(mats.drop_last(), images, reg);
        assert forall|r: ImageRef|
            reg.contains(r) implies #[trigger] pass(mats, images, reg).registry.contains(r) by {
            assert(pass(mats.drop_last(), images, reg).registry.contains(r));
        }
    }
}

/// A readiness pass decides readiness and nothing else about a descriptor:
/// its direction and source reference come out as they went in.
pub proof fn lemma_pass_keeps_identity(
    mats: Seq<CubemapMaterial>,
    images: Map<ImageRef, Image>,
    reg: Set<ImageRef>,
)
    ensures
        pass(mats, images, reg).materials.len() == mats.len(),
        forall|k: int|
            0 <= k < mats.len() ==> {
                &&& (#[trigger] pass(mats, images, reg).materials[k]).source_image
                    == mats[k].source_image
                &&& pass(mats, images, reg).materials[k].direction == mats[k].direction
            },
    decreases mats.len(),
{
    if mats.len() > 0 {
        lemma_pass_keeps_identity(mats.drop_last(), images, reg);
    }
}

/// A descriptor that a readiness pass switched to ready has its source
/// reference in the registry the pass leaves behind.
pub proof fn lemma_ready_implies_registered(
    mats: Seq<CubemapMaterial>,
    images: Map<ImageRef, Image>,
    reg: Set<ImageRef>,
    i: int,
)
    requires
        0 <= i < mats.len(),
        !mats[i].ready,
        pass(mats, images, reg).materials[i].ready,
    ensures
        pass(mats, images, reg).registry.contains(mats[i].source_image),
    decreases mats.len(),
{
    lemma_pass_keeps_identity(mats.drop_last(), images, reg);
    if i < mats.len() - 1 {
        lemma_ready_implies_registered(mats.drop_last(), images, reg, i);
    }
}

/// A descriptor whose source reference is already in the registry when a
/// readiness pass starts is ready when the pass ends.
pub proof fn lemma_registered_becomes_ready(
    mats: Seq<CubemapMaterial>,
    images: Map<ImageRef, Image>,
    reg: Set<ImageRef>,
    j: int,
)
    requires
        0 <= j < mats.len(),
        reg.contains(mats[j].source_image),
    ensures
        pass(mats, images, reg).materials[j].ready,
    decreases mats.len(),
{
    lemma_pass_keeps_identity(mats.drop_last(), images, reg);
    if j < mats.len() - 1 {
        lemma_registered_becomes_ready(mats.drop_last(), images, reg, j);
    } else {
        lemma_pass_registry_monotone(mats.drop_last(), images, reg);
    }
}

/// Registry short-circuit across descriptors sharing a source: once one
/// readiness pass has switched some descriptor to ready, every descriptor
/// sharing that descriptor's source reference is ready after the next pass,
/// whatever the image store holds by then.
pub proof fn lemma_shared_source_converges(
    mats: Seq<CubemapMaterial>,
    images: Map<ImageRef, Image>,
    reg: Set<ImageRef>,
    next_images: Map<ImageRef, Image>,
    i: int,
    j: int,
)
    requires
        0 <= i < mats.len(),
        0 <= j < mats.len(),
        mats[j].source_image == mats[i].source_image,
        !mats[i].ready,
        pass(mats, images, reg).materials[i].ready,
    ensures
        pass(mats, images, reg).registry.contains(mats[j].source_image),
        pass(
            pass(mats, images, reg).materials,
            next_images,
            pass(mats, images, reg).registry,
        ).materials[j].ready,
{
    lemma_ready_implies_registered(mats, images, reg, i);
    lemma_pass_keeps_identity(mats, images, reg);
    lemma_registered_becomes_ready(
        pass(mats, images, reg).materials,
        next_images,
        pass(mats, images, reg).registry,
        j,
    );
}

/// Registry short-circuit within one pass: once a readiness pass has switched
/// some descriptor to ready, every later descriptor of the same pass sharing
/// that descriptor's source reference comes out ready too — the pass steps
/// descriptors in order, and each step sees the registry the previous steps
/// left behind.
pub proof fn lemma_shared_source_same_pass(
    mats: Seq<CubemapMaterial>,
    images: Map<ImageRef, Image>,
    reg: Set<ImageRef>,
    i: int,
    j: int,
)
    requires
        0 <= i < j < mats.len(),
        mats[j].source_image == mats[i].source_image,
        !mats[i].ready,
        pass(mats, images, reg).materials[i].ready,
    ensures
        pass(mats, images, reg).materials[j].ready,
    decreases mats.len(),
{
    lemma_pass_keeps_identity(mats.drop_last(), images, reg);
    if j < mats.len() - 1 {
        lemma_shared_source_same_pass(mats.drop_last(), images, reg, i, j);
    } else {
        lemma_ready_implies_registered(mats.drop_last(), images, reg, i);
    }
}

/// Reassigning a descriptor to a reference already in the registry leaves it
/// unready at first, and the very next readiness step on it switches it to
/// ready by the registry short-circuit alone.
pub proof fn lemma_reassign_registered(
    m: CubemapMaterial,
    image: ImageRef,
    images: Map<ImageRef, Image>,
    reg: Set<ImageRef>,
)
    requires
        reg.contains(image),
    ensures
        !reassigned(m, image).ready,
        step_outcome(reassigned(m, image), images, reg) is AlreadyConverted,
        step_material(reassigned(m, image), images, reg).ready,
{
}

/// The readiness step accepts a loaded, unregistered image — reinterprets it
/// and switches the descriptor to ready — exactly when the image's height is
/// a multiple of six. Any other height is malformed, and a malformed step
/// changes neither descriptor, store nor registry, so absent a source change
/// the descriptor stays unready, tick after tick.
pub proof fn lemma_accepts_iff_height_multiple(
    m: CubemapMaterial,
    images: Map<ImageRef, Image>,
    reg: Set<ImageRef>,
)
    requires
        !reg.contains(m.source_image),
        images.contains_key(m.source_image),
    ensures
        step_outcome(m, images, reg) is Converted <==> images[m.source_image].height % CUBE_FACES
            == 0,
        step_outcome(m, images, reg) is Malformed <==> images[m.source_image].height % CUBE_FACES
            != 0,
        step_outcome(m, images, reg) is Malformed ==> {
            &&& step_material(m, images, reg) == m
            &&& step_images(m, images, reg) == images
            &&& step_registry(m, images, reg) == reg
        },
{
}

} // verus!
