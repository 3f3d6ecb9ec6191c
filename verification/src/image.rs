//! The adapter's view of the external image store: raw 2D pixel buffers on
//! the logical side, uploaded textures on the render side.

use std::collections::HashMap;
use vstd::prelude::*;

use crate::material::ImageRef;

verus! {

broadcast use vstd::std_specs::hash::group_hash_axioms;

/// Number of faces of a cube map: a valid strip holds six equal square faces
/// stacked vertically.
pub const CUBE_FACES: u32 = 6;

/// Layout metadata of one image in the asset store: the pixel buffer itself
/// stays with the external store and never moves.
///
/// A freshly decoded 2D image has `layers == 1` and its full strip height;
/// reinterpreting it as a cube map divides the height by six and sets
/// `layers` to six, without copying or resampling any pixel data.
#[derive(Clone, Copy, Debug, PartialEq, Eq, Structural)]
pub struct Image {
    pub width: u32,
    pub height: u32,
    pub layers: u32,
}

/// The layout an image has after its flat strip was reinterpreted as six
/// equal-height array layers.
pub open spec fn reinterpreted(img: Image) -> Image {
    Image { width: img.width, height: (img.height / CUBE_FACES) as u32, layers: CUBE_FACES }
}

impl Image {
    /// A freshly loaded flat 2D image: one layer, full strip height.
    pub fn new_2d(width: u32, height: u32) -> (img: Image)
        ensures
            img == (Image { width, height, layers: 1u32 }),
    {
        Image { width, height, layers: 1 }
    }

    /// Reinterpret the flat buffer as `CUBE_FACES` equal-height array layers.
    /// Pure metadata change: no pixel data is copied or resampled.
    pub fn reinterpret_stacked_2d_as_array(&mut self)
        requires
            old(self).height % CUBE_FACES == 0,
        ensures
            *final(self) == reinterpreted(*old(self)),
    {
        self.height = self.height / CUBE_FACES;
        self.layers = CUBE_FACES;
    }
}

/// The logical-side image store: resolves a reference to the layout metadata
/// of a loaded raw image, or to nothing while the asynchronous load is still
/// pending. The readiness step reads it and rewrites one entry's layout in
/// place when it reinterprets a strip.
pub struct ImageStore {
    images: HashMap<ImageRef, Image>,
}

impl View for ImageStore {
    type V = Map<ImageRef, Image>;

    closed spec fn view(&self) -> Map<ImageRef, Image> {
        self.images@
    }
}

impl ImageStore {
    /// An empty store: every load is still pending.
    pub fn new() -> (s: ImageStore)
        ensures
            s@ == Map::<ImageRef, Image>::empty(),
    {
        ImageStore { images: HashMap::new() }
    }

    /// Record that the image behind `image` finished loading with this layout.
    pub fn insert(&mut self, image: ImageRef, img: Image)
        ensures
            final(self)@ == old(self)@.insert(image, img),
    {
        self.images.insert(image, img);
    }

    /// Resolve a reference: `None` while the load is still pending.
    pub fn get(&self, image: ImageRef) -> (r: Option<Image>)
        ensures
            r == if self@.contains_key(image) {
                Some(self@[image])
            } else {
                Option::<Image>::None
            },
    {
        match self.images.get(&image) {
            Some(img) => Some(*img),
            None => None,
        }
    }
}

/// The render-side store: resolves a reference to a texture already uploaded
/// to the GPU, or to nothing while the upload still lags behind the logical
/// reinterpretation. The preparation step only reads it.
pub struct GpuImages {
    images: HashMap<ImageRef, Image>,
}

impl View for GpuImages {
    type V = Map<ImageRef, Image>;

    closed spec fn view(&self) -> Map<ImageRef, Image> {
        self.images@
    }
}

impl GpuImages {
    /// An empty render store: no upload has completed yet.
    pub fn new() -> (s: GpuImages)
        ensures
            s@ == Map::<ImageRef, Image>::empty(),
    {
        GpuImages { images: HashMap::new() }
    }

    /// Record that the texture behind `image` finished uploading with this
    /// layout.
    pub fn insert(&mut self, image: ImageRef, img: Image)
        ensures
            final(self)@ == old(self)@.insert(image, img),
    {
        self.images.insert(image, img);
    }

    /// Resolve a reference: `None` while the upload is still pending.
    pub fn get(&self, image: ImageRef) -> (r: Option<Image>)
        ensures
            r == if self@.contains_key(image) {
                Some(self@[image])
            } else {
                Option::<Image>::None
            },
    {
        match self.images.get(&image) {
            Some(img) => Some(*img),
            None => None,
        }
    }
}

} // verus!
