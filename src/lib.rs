//! Lowering of a closed sum type to a C-compatible tagged union: shape
//! checks, grouping of variants by payload type, tag numbering, layout of the
//! raw union and its record, and the conversions between the two forms.
use vstd::prelude::*;

pub mod conversion;
pub mod expand;
pub mod layout;
pub mod names;
pub mod shape;
pub mod tags;
pub mod typemap;

verus! {

/// A sum type that has a tagged-union form.
pub trait TaggedUnion: Sized {
    type Target;

    /// The tag corresponding to this variant.
    fn tag(&self) -> u32;

    /// The FFI-safe form of this value.
    fn as_tagged(&self) -> Self::Target;

    /// Converts back from the tagged form. The union field that the tag
    /// selects must be the one that was last written.
    fn from_tagged(tagged: &Self::Target) -> Result<Self, InvalidTag>;
}

/// A tag outside the range of known tags.
#[derive(Debug, PartialEq, Eq)]
pub struct InvalidTag {
    pub got: u32,
    pub possible_tags: core::ops::Range<usize>,
}

} // verus!
