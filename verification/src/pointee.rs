//! What a typed relative pointer needs to know of the values it points to.
//!
//! A reference to a value of dynamic size is an address and a shape: the
//! length of a sequence, the descriptor of a polymorphic value. The shape is
//! stored beside the pointer in an archived form. Two capabilities connect the
//! two: [`ArchiveUnsized`] derives the archived shape from the value that is
//! written, and [`ArchivePointee`] turns the archived shape back into the
//! shape of a reference when the pointer is read.
//!
//! Both are given here for runs of bytes, whose shape is their length. Other
//! kinds of values bring their own.

use vstd::prelude::*;

verus! {

/// An archived type with associated metadata for its relative pointer.
pub trait ArchivePointee {
    /// The archived version of the pointer metadata for this type.
    type ArchivedMetadata;

    /// The pointer metadata for this type: the shape of a reference to it.
    type Metadata;

    /// The pointer metadata that some archived metadata stands for.
    spec fn metadata_of(archived: &Self::ArchivedMetadata) -> Self::Metadata;

    /// Converts some archived metadata to the pointer metadata for itself.
    fn pointer_metadata(archived: &Self::ArchivedMetadata) -> (r: Self::Metadata)
        ensures
            r == Self::metadata_of(archived),
    ;
}

/// The archived metadata of the archived form of `T`.
pub type ArchivedMetadata<T> = <<T as ArchiveUnsized>::Archived as ArchivePointee>::ArchivedMetadata;

/// The pointer metadata of the archived form of `T`.
pub type ArchivedShape<T> = <<T as ArchiveUnsized>::Archived as ArchivePointee>::Metadata;

/// A value, possibly of dynamic size, whose shape can be archived.
pub trait ArchiveUnsized {
    /// The archived counterpart of this type.
    type Archived: ArchivePointee + ?Sized;

    /// The resolver for the metadata of this type.
    type MetadataResolver;

    /// Whether `resolver` was produced for this value.
    spec fn resolves_with(&self, resolver: Self::MetadataResolver) -> bool;

    /// The archived metadata of this value, for a metadata slot at the
    /// position `pos`.
    spec fn archived_metadata(
        &self,
        pos: usize,
        resolver: Self::MetadataResolver,
    ) -> ArchivedMetadata<Self>;

    /// The shape of a reference to the archived form of this value.
    spec fn archived_shape(&self) -> ArchivedShape<Self>;

    /// The archived metadata of a value stands for the shape of its archived
    /// form, wherever it is stored.
    proof fn lemma_metadata_keeps_shape(&self, pos: usize, resolver: Self::MetadataResolver)
        requires
            self.resolves_with(resolver),
        ensures
            <Self::Archived as ArchivePointee>::metadata_of(
                &self.archived_metadata(pos, resolver),
            ) == self.archived_shape(),
    ;

    /// Creates the archived version of the metadata for this value at the
    /// given position and writes it to the given output.
    fn resolve_metadata(
        &self,
        pos: usize,
        resolver: Self::MetadataResolver,
        out: &mut Option<ArchivedMetadata<Self>>,
    )
        requires
            self.resolves_with(resolver),
        ensures
            *final(out) == Some(self.archived_metadata(pos, resolver)),
    ;
}

/// A slice is referred to by the address of its first element and the number
/// of its elements, which is archived as it is.
impl<T> ArchivePointee for [T] {
    type ArchivedMetadata = usize;

    type Metadata = usize;

    open spec fn metadata_of(archived: &usize) -> usize {
        *archived
    }

    fn pointer_metadata(archived: &usize) -> (r: usize) {
        *archived
    }
}

/// A run of bytes is archived as it is, and needs no resolver.
impl ArchiveUnsized for [u8] {
    type Archived = [u8];

    type MetadataResolver = ();

    open spec fn resolves_with(&self, resolver: ()) -> bool {
        true
    }

    open spec fn archived_metadata(&self, pos: usize, resolver: ()) -> usize {
        self@.len() as usize
    }

    open spec fn archived_shape(&self) -> usize {
        self@.len() as usize
    }

    proof fn lemma_metadata_keeps_shape(&self, pos: usize, resolver: ()) {
    }

    fn resolve_metadata(&self, pos: usize, resolver: (), out: &mut Option<usize>) {
        *out = Some(self.len());
    }
}

} // verus!
