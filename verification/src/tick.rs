//! The per-frame entry point: one readiness pass, then one preparation pass,
//! in that fixed order, over all live descriptors.

use vstd::prelude::*;

use crate::image::{GpuImages, ImageStore};
use crate::material::CubemapMaterial;
use crate::prepare::{cube_sampler, cube_view, direction_bytes, PrepareError, PreparedBindGroup};
use crate::readiness::{convert_to_cube, pass};
use crate::registry::ConvertedTextures;

verus! {

/// One frame of the adapter: first the readiness pass, which may reinterpret
/// freshly loaded strips and grow the registry, then the preparation pass,
/// which builds a binding set for every descriptor that is ready and whose
/// texture has finished uploading, and hands back the retry signal for every
/// other. Returns one preparation result per descriptor, in order, and the
/// number of malformed-source diagnostics the readiness pass found due.
pub fn tick(
    materials: &mut Vec<CubemapMaterial>,
    images: &mut ImageStore,
    converted: &mut ConvertedTextures,
    gpu_images: &GpuImages,
) -> (r: (Vec<Result<PreparedBindGroup, PrepareError>>, usize))
    ensures
        final(materials)@ == pass(old(materials)@, old(images)@, old(converted)@).materials,
        final(images)@ == pass(old(materials)@, old(images)@, old(converted)@).images,
        final(converted)@ == pass(old(materials)@, old(images)@, old(converted)@).registry,
        r.1 == pass(old(materials)@, old(images)@, old(converted)@).diagnostics,
        r.0@.len() == final(materials)@.len(),
        forall|i: int|
            0 <= i < r.0@.len() ==> {
                &&& (#[trigger] r.0@[i] is Ok <==> final(materials)@[i].ready
                    && gpu_images@.contains_key(final(materials)@[i].source_image))
                &&& (r.0@[i] is Ok ==> {
                    &&& r.0@[i]->Ok_0.uniform@ == direction_bytes(final(materials)@[i].direction)
                    &&& r.0@[i]->Ok_0.texture_view == cube_view(
                        gpu_images@[final(materials)@[i].source_image].layers,
                    )
                    &&& r.0@[i]->Ok_0.sampler == cube_sampler()
                })
                &&& (r.0@[i] is Err ==> r.0@[i] == Result::<
                    PreparedBindGroup,
                    PrepareError,
                >::Err(PrepareError::RetryNextUpdate))
            },
{
    let diagnostics = convert_to_cube(materials, images, converted);
    let n = materials.len();
    let mut results: Vec<Result<PreparedBindGroup, PrepareError>> = Vec::new();
    for i in 0..n
        invariant
            n == materials@.len(),
            results@.len() == i,
            forall|j: int|
                0 <= j < i ==> {
                    &&& (#[trigger] results@[j] is Ok <==> materials@[j].ready
                        && gpu_images@.contains_key(materials@[j].source_image))
                    &&& (results@[j] is Ok ==> {
                        &&& results@[j]->Ok_0.uniform@ == direction_bytes(materials@[j].direction)
                        &&& results@[j]->Ok_0.texture_view == cube_view(
                            gpu_images@[materials@[j].source_image].layers,
                        )
                        &&& results@[j]->Ok_0.sampler == cube_sampler()
                    })
                    &&& (results@[j] is Err ==> results@[j] == Result::<
                        PreparedBindGroup,
                        PrepareError,
                    >::Err(PrepareError::RetryNextUpdate))
                },
    {
        let prepared = materials[i].as_bind_group(gpu_images);
        results.push(prepared);
    }
    (results, diagnostics)
}

} // verus!
