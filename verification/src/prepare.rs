//! The GPU resource preparation step: given a ready descriptor and its
//! uploaded texture, produce the binding set the fragment stage consumes —
//! a uniform buffer with the direction vector, a cube view over the texture,
//! and a sampler. This step only reads descriptor state, never mutates it.

use vstd::prelude::*;

use crate::image::{GpuImages, Image};
use crate::material::{CubemapMaterial, Direction};

verus! {

/// Texel format of the cube view: 8 bits per channel, sRGB.
#[derive(Clone, Copy, Debug, PartialEq, Eq, Structural)]
pub enum TextureFormat {
    Rgba8UnormSrgb,
}

/// How the shading stage addresses the view.
#[derive(Clone, Copy, Debug, PartialEq, Eq, Structural)]
pub enum TextureViewDimension {
    Cube,
}

/// Which aspect of the texture the view exposes.
#[derive(Clone, Copy, Debug, PartialEq, Eq, Structural)]
pub enum TextureAspect {
    All,
}

/// Texel filtering mode of the sampler.
#[derive(Clone, Copy, Debug, PartialEq, Eq, Structural)]
pub enum FilterMode {
    Linear,
}

/// Wrapping behaviour of the sampler outside the unit interval.
#[derive(Clone, Copy, Debug, PartialEq, Eq, Structural)]
pub enum AddressMode {
    Repeat,
}

/// A view over the uploaded texture, reinterpreting it as a cube: six array
/// layers, full mip range, colour aspect only.
#[derive(Clone, Copy, Debug, PartialEq, Eq, Structural)]
pub struct TextureView {
    pub format: TextureFormat,
    pub dimension: TextureViewDimension,
    pub aspect: TextureAspect,
    pub base_mip_level: u32,
    pub full_mip_range: bool,
    pub base_array_layer: u32,
    pub layer_count: u32,
}

/// Sampler configuration: linear filtering, repeat wrapping on both axes, and
/// a high anisotropy clamp for edge quality at grazing angles.
#[derive(Clone, Copy, Debug, PartialEq, Eq, Structural)]
pub struct Sampler {
    pub mag_filter: FilterMode,
    pub min_filter: FilterMode,
    pub address_mode_u: AddressMode,
    pub address_mode_v: AddressMode,
    pub anisotropy_clamp: u8,
}

/// The binding set a shading stage reads when rendering with this material:
/// owned by the render-side consumer, rebuilt when the descriptor's readiness
/// flips or the image data changes, never mutated by the logical side.
#[derive(Debug, PartialEq, Eq)]
pub struct PreparedBindGroup {
    /// The direction vector's sixteen bytes, one 16-byte-aligned slot.
    pub uniform: Vec<u8>,
    pub texture_view: TextureView,
    pub sampler: Sampler,
}

/// The one failure the preparation step knows: a recoverable
/// pending-dependency state, consumed by the driving loop which simply tries
/// again next tick.
#[derive(Clone, Copy, Debug, PartialEq, Eq, Structural)]
pub enum PrepareError {
    RetryNextUpdate,
}

/// The four little-endian bytes of one direction component.
pub open spec fn u32_le_bytes(x: u32) -> Seq<u8> {
    seq![
        (x & 0xff) as u8,
        ((x >> 8) & 0xff) as u8,
        ((x >> 16) & 0xff) as u8,
        ((x >> 24) & 0xff) as u8,
    ]
}

/// The sixteen bytes of the uniform buffer: the components in order
/// x, y, z, w, each as a little-endian 32-bit value.
pub open spec fn direction_bytes(d: Direction) -> Seq<u8> {
    u32_le_bytes(d.x) + u32_le_bytes(d.y) + u32_le_bytes(d.z) + u32_le_bytes(d.w)
}

/// The cube view the preparation step builds over an uploaded texture with
/// `layers` array layers.
pub open spec fn cube_view(layers: u32) -> TextureView {
    TextureView {
        format: TextureFormat::Rgba8UnormSrgb,
        dimension: TextureViewDimension::Cube,
        aspect: TextureAspect::All,
        base_mip_level: 0,
        full_mip_range: true,
        base_array_layer: 0,
        layer_count: layers,
    }
}

/// The one sampler configuration the preparation step uses.
pub open spec fn cube_sampler() -> Sampler {
    Sampler {
        mag_filter: FilterMode::Linear,
        min_filter: FilterMode::Linear,
        address_mode_u: AddressMode::Repeat,
        address_mode_v: AddressMode::Repeat,
        anisotropy_clamp: 16,
    }
}

/// Serialize one direction component into `out` as four little-endian bytes.
fn push_u32_le(out: &mut Vec<u8>, x: u32)
    ensures
        final(out)@ == old(out)@ + u32_le_bytes(x),
{
    out.push((x & 0xff) as u8);
    out.push(((x >> 8) & 0xff) as u8);
    out.push(((x >> 16) & 0xff) as u8);
    out.push(((x >> 24) & 0xff) as u8);
    proof {
        assert(out@ =~= old(out)@ + u32_le_bytes(x));
    }
}

/// The uniform buffer contents for a direction vector: exactly the sixteen
/// bytes of the four components, in order, little-endian each.
pub fn direction_uniform(d: &Direction) -> (out: Vec<u8>)
    ensures
        out@ == direction_bytes(*d),
        out@.len() == 16,
{
    let mut out: Vec<u8> = Vec::new();
    push_u32_le(&mut out, d.x);
    push_u32_le(&mut out, d.y);
    push_u32_le(&mut out, d.z);
    push_u32_le(&mut out, d.w);
    out
}

impl CubemapMaterial {
    /// Produce the binding set for this descriptor, or the retry signal.
    ///
    /// An unready descriptor, and a descriptor whose texture has not finished
    /// uploading, both yield `RetryNextUpdate`: expected transient states,
    /// retried by the driving loop. Otherwise the result is fully determined
    /// by the descriptor and the uploaded texture: the uniform buffer holds
    /// the direction's sixteen bytes, the view is a cube view over all of the
    /// texture's layers, and the sampler is the adapter's fixed
    /// linear/repeat/16x configuration.
    pub fn as_bind_group(&self, gpu_images: &GpuImages) -> (r: Result<
        PreparedBindGroup,
        PrepareError,
    >)
        ensures
            r is Ok <==> self.ready && gpu_images@.contains_key(self.source_image),
            r is Err ==> r == Result::<PreparedBindGroup, PrepareError>::Err(
                PrepareError::RetryNextUpdate,
            ),
            r is Ok ==> {
                &&& r->Ok_0.uniform@ == direction_bytes(self.direction)
                &&& r->Ok_0.texture_view == cube_view(gpu_images@[self.source_image].layers)
                &&& r->Ok_0.sampler == cube_sampler()
            },
    {
        if !self.ready {
            return Err(PrepareError::RetryNextUpdate);
        }
        let img: Image = match gpu_images.get(self.source_image) {
            Some(img) => img,
            None => {
                return Err(PrepareError::RetryNextUpdate);
            },
        };
        let uniform = direction_uniform(&self.direction);
        let texture_view = TextureView {
            format: TextureFormat::Rgba8UnormSrgb,
            dimension: TextureViewDimension::Cube,
            aspect: TextureAspect::All,
            base_mip_level: 0,
            full_mip_range: true,
            base_array_layer: 0,
            layer_count: img.layers,
        };
        let sampler = Sampler {
            mag_filter: FilterMode::Linear,
            min_filter: FilterMode::Linear,
            address_mode_u: AddressMode::Repeat,
            address_mode_v: AddressMode::Repeat,
            anisotropy_clamp: 16,
        };
        Ok(PreparedBindGroup { uniform, texture_view, sampler })
    }
}

/// Pipeline stages a binding is visible to. Every binding of this material is
/// read by the fragment stage alone.
#[derive(Clone, Copy, Debug, PartialEq, Eq, Structural)]
pub enum ShaderStage {
    Fragment,
}

/// What kind of resource one binding slot carries.
#[derive(Clone, Copy, Debug, PartialEq, Eq, Structural)]
pub enum BindingType {
    /// A uniform buffer slot.
    UniformBuffer { has_dynamic_offset: bool },
    /// A cube-dimension texture slot sampled as filterable floats.
    CubeTexture { multisampled: bool, filterable: bool },
    /// A filtering sampler slot.
    FilteringSampler,
}

/// One slot of the bind group layout.
#[derive(Clone, Copy, Debug, PartialEq, Eq, Structural)]
pub struct BindGroupLayoutEntry {
    pub binding: u32,
    pub visibility: ShaderStage,
    pub ty: BindingType,
}

/// The shape of the bind group this material fills: what stands in each
/// binding slot, independent of any particular descriptor.
#[derive(Debug, PartialEq, Eq)]
pub struct BindGroupLayout {
    pub entries: Vec<BindGroupLayoutEntry>,
}

/// The three slots of the material's bind group layout: the direction uniform
/// at binding 0, the cube texture at binding 1, its sampler at binding 2, all
/// fragment-stage only.
pub open spec fn layout_entries() -> Seq<BindGroupLayoutEntry> {
    seq![
        BindGroupLayoutEntry {
            binding: 0,
            visibility: ShaderStage::Fragment,
            ty: BindingType::UniformBuffer { has_dynamic_offset: false },
        },
        BindGroupLayoutEntry {
            binding: 1,
            visibility: ShaderStage::Fragment,
            ty: BindingType::CubeTexture { multisampled: false, filterable: true },
        },
        BindGroupLayoutEntry {
            binding: 2,
            visibility: ShaderStage::Fragment,
            ty: BindingType::FilteringSampler,
        },
    ]
}

/// The bind group layout of the material: the same for every descriptor.
pub fn bind_group_layout() -> (l: BindGroupLayout)
    ensures
        l.entries@ == layout_entries(),
{
    let mut entries: Vec<BindGroupLayoutEntry> = Vec::new();
    entries.push(
        BindGroupLayoutEntry {
            binding: 0,
            visibility: ShaderStage::Fragment,
            ty: BindingType::UniformBuffer { has_dynamic_offset: false },
        },
    );
    entries.push(
        BindGroupLayoutEntry {
            binding: 1,
            visibility: ShaderStage::Fragment,
            ty: BindingType::CubeTexture { multisampled: false, filterable: true },
        },
    );
    entries.push(
        BindGroupLayoutEntry {
            binding: 2,
            visibility: ShaderStage::Fragment,
            ty: BindingType::FilteringSampler,
        },
    );
    proof {
        assert(entries@ =~= layout_entries());
    }
    BindGroupLayout { entries }
}

} // verus!
