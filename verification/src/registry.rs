//! The conversion registry: the process-wide memo of image references that
//! have already been validated and reinterpreted as cube layers.

use std::collections::HashSet;
use vstd::prelude::*;

use crate::material::ImageRef;

verus! {

broadcast use vstd::std_specs::hash::group_hash_axioms;

/// Set of image references already known to be cube-compatible.
///
/// Membership is the sole gate that prevents re-validating and
/// re-reinterpreting a shared image on every tick. The type offers no removal
/// operation, so membership is monotonic for the life of the process: `insert`
/// states explicitly that every previous member is kept.
pub struct ConvertedTextures {
    converted: HashSet<ImageRef>,
}

impl View for ConvertedTextures {
    type V = Set<ImageRef>;

    closed spec fn view(&self) -> Set<ImageRef> {
        self.converted@
    }
}

impl ConvertedTextures {
    /// An empty registry: no image has been converted yet.
    pub fn new() -> (r: ConvertedTextures)
        ensures
            r@ == Set::<ImageRef>::empty(),
    {
        ConvertedTextures { converted: HashSet::new() }
    }

    /// Is this reference already converted?
    pub fn contains(&self, image: ImageRef) -> (b: bool)
        ensures
            b == self@.contains(image),
    {
        self.converted.contains(&image)
    }

    /// Record that `image` has been reinterpreted as cube layers. Every
    /// reference that was a member stays one: the registry only grows.
    pub fn insert(&mut self, image: ImageRef)
        ensures
            final(self)@ == old(self)@.insert(image),
            final(self)@.contains(image),
            forall|r: ImageRef| old(self)@.contains(r) ==> final(self)@.contains(r),
    {
        self.converted.insert(image);
    }
}

} // verus!
