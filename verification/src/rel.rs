//! The typed relative pointer: an untyped one, and beside it the archived
//! metadata of the value it points to.

use core::marker::PhantomData;
use vstd::prelude::*;
use vstd::layout::size_of;
use crate::distance::distance;
use crate::offset::{between_spec, Offset};
use crate::pointee::{ArchivePointee, ArchiveUnsized};
use crate::raw::RawRelPtr;

verus! {

/// The position of the metadata of a typed pointer that is stored at `from`:
/// it follows the offset at once.
pub open spec fn metadata_position<O>(from: usize) -> int {
    from as int + size_of::<O>() as int
}

/// A pointer which resolves to relative to its position in memory.
#[derive(Debug)]
pub struct RelPtr<T: ArchivePointee + ?Sized, O: Offset> {
    raw: RawRelPtr<O>,
    metadata: T::ArchivedMetadata,
    _phantom: PhantomData<T>,
}

impl<T: ArchivePointee + ?Sized, O: Offset> RelPtr<T, O> {
    /// The address at which the pointer is stored.
    pub closed spec fn base_address(&self) -> usize {
        self.raw.base_address()
    }

    /// The distance that the pointer stores.
    pub closed spec fn stored_distance(&self) -> int {
        self.raw.stored_distance()
    }

    /// The address that the pointer refers to.
    pub open spec fn target(&self) -> int {
        self.base_address() as int + self.stored_distance()
    }

    /// The archived metadata that the pointer stores.
    pub closed spec fn stored_metadata(&self) -> T::ArchivedMetadata {
        self.metadata
    }

    /// The shape of the value that the pointer refers to.
    pub open spec fn shape(&self) -> T::Metadata {
        T::metadata_of(&self.stored_metadata())
    }

    /// Creates a relative pointer from one position to another.
    ///
    /// `out` is the slot at position `from`, `to` is the position of the
    /// archived form of `value`, and `metadata_resolver` is the resolver that
    /// was produced for `value`. Where the offset cannot be built, the slot is
    /// left as it was and no metadata is made.
    pub fn resolve_emplace<U: ArchiveUnsized<Archived = T> + ?Sized>(
        from: usize,
        to: usize,
        value: &U,
        metadata_resolver: U::MetadataResolver,
        out: &mut Option<Self>,
    ) -> (r: Result<(), O::Error>)
        requires
            value.resolves_with(metadata_resolver),
            metadata_position::<O>(from) <= usize::MAX,
        ensures
            match between_spec(from, to, O::storage_min(), O::storage_max()) {
                Ok(d) => {
                    &&& r is Ok
                    &&& *final(out) matches Some(p)
                    &&& p.base_address() == from
                    &&& p.stored_distance() == d
                    &&& p.target() == to
                    &&& p.stored_metadata() == value.archived_metadata(
                        metadata_position::<O>(from) as usize,
                        metadata_resolver,
                    )
                    &&& p.shape() == value.archived_shape()
                },
                Err(kind) => {
                    &&& r matches Err(e)
                    &&& e == O::failure(kind)
                    &&& *final(out) == *old(out)
                },
            },
    {
        let mut raw: Option<RawRelPtr<O>> = None;
        RawRelPtr::emplace(from, to, &mut raw)?;
        let metadata_pos: usize = from + core::mem::size_of::<O>();
        let mut metadata: Option<T::ArchivedMetadata> = None;
        value.resolve_metadata(metadata_pos, metadata_resolver, &mut metadata);
        proof {
            value.lemma_metadata_keeps_shape(metadata_pos, metadata_resolver);
        }
        *out = Some(
            RelPtr { raw: raw.unwrap(), metadata: metadata.unwrap(), _phantom: PhantomData },
        );
        Ok(())
    }

    /// Gets the base pointer for the relative pointer.
    pub fn base(&self) -> (r: usize)
        ensures
            r == self.base_address(),
    {
        self.raw.base()
    }

    /// Gets the mutable base pointer for the relative pointer.
    pub fn base_mut(&mut self) -> (r: usize)
        ensures
            r == old(self).base_address(),
            *final(self) == *old(self),
    {
        self.raw.base_mut()
    }

    /// Gets the offset of the relative pointer from its base.
    pub fn offset(&self) -> (r: isize)
        ensures
            r as int == self.stored_distance(),
    {
        self.raw.offset()
    }

    /// Gets the metadata of the relative pointer.
    pub fn metadata(&self) -> (r: &T::ArchivedMetadata)
        ensures
            *r == self.stored_metadata(),
    {
        &self.metadata
    }

    /// Calculates the memory address being pointed to by this relative
    /// pointer, and the shape of the value that lies there.
    pub fn as_ptr(&self) -> (r: (usize, T::Metadata))
        ensures
            r.0 as int == self.target(),
            r.1 == self.shape(),
    {
        (self.raw.as_ptr(), T::pointer_metadata(&self.metadata))
    }

    /// Returns the memory address being pointed to by this relative pointer
    /// and the shape of the value that lies there, for a caller that is going
    /// to write there.
    pub fn as_mut_ptr(&mut self) -> (r: (usize, T::Metadata))
        ensures
            r.0 as int == old(self).target(),
            r.1 == old(self).shape(),
            *final(self) == *old(self),
    {
        (self.raw.as_mut_ptr(), T::pointer_metadata(&self.metadata))
    }
}

/// A typed pointer that was written for a value leads back to it: it refers
/// to the position that it was written for, with the shape of the archived
/// form of the value.
pub proof fn lemma_typed_pointer_round_trip<T, O, U>(
    pointer: RelPtr<T, O>,
    from: usize,
    to: usize,
    value: &U,
    metadata_resolver: U::MetadataResolver,
) where T: ArchivePointee + ?Sized, O: Offset, U: ArchiveUnsized<Archived = T> + ?Sized
    requires
        value.resolves_with(metadata_resolver),
        pointer.base_address() == from,
        pointer.stored_distance() == distance(from, to),
        pointer.stored_metadata() == value.archived_metadata(
            metadata_position::<O>(from) as usize,
            metadata_resolver,
        ),
    ensures
        pointer.target() == to,
        pointer.shape() == value.archived_shape(),
{
    value.lemma_metadata_keeps_shape(metadata_position::<O>(from) as usize, metadata_resolver);
}

} // verus!
