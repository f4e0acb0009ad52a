//! The untyped relative pointer.
//!
//! A relative pointer is written once, into a slot at a known position of the
//! archive, and holds the distance from that position to its target. Reading
//! it adds the distance to the pointer's own address. Addresses are counted in
//! bytes from the start of the archive, so an archive that is loaded at the
//! address `a` has every pointer and every target moved by `a` alike, and the
//! stored distances stay valid (see
//! [`lemma_offset_is_position_independent`]).

use vstd::prelude::*;
use crate::distance::{address_at, distance, fits_isize};
use crate::offset::{between_spec, Offset};

verus! {

/// An untyped pointer which resolves relative to its position in memory.
///
/// It holds the offset to its target and the address of the slot that it was
/// written to.
#[derive(Debug)]
pub struct RawRelPtr<O: Offset> {
    offset: O,
    base: usize,
}

impl<O: Offset> RawRelPtr<O> {
    /// A pointer that has been written can always be resolved: its distance
    /// fits `isize`, and its target is an address.
    #[verifier::type_invariant]
    spec fn resolvable(&self) -> bool {
        &&& fits_isize(self.offset.value())
        &&& 0 <= self.base as int + self.offset.value() <= usize::MAX as int
    }

    /// The address at which the pointer is stored.
    pub closed spec fn base_address(&self) -> usize {
        self.base
    }

    /// The distance that the pointer stores.
    pub closed spec fn stored_distance(&self) -> int {
        self.offset.value()
    }

    /// The address that the pointer refers to.
    pub open spec fn target(&self) -> int {
        self.base_address() as int + self.stored_distance()
    }

    /// Creates a new `RawRelPtr` in-place between the given `from` and `to`
    /// positions.
    ///
    /// `out` is the slot at position `from`, and `to` is a position within
    /// the archive. Where the offset cannot be built, the slot is left as it
    /// was.
    pub fn emplace(from: usize, to: usize, out: &mut Option<Self>) -> (r: Result<(), O::Error>)
        ensures
            match between_spec(from, to, O::storage_min(), O::storage_max()) {
                Ok(d) => {
                    &&& r is Ok
                    &&& *final(out) matches Some(p)
                    &&& p.base_address() == from
                    &&& p.stored_distance() == d
                    &&& p.target() == to
                },
                Err(kind) => {
                    &&& r matches Err(e)
                    &&& e == O::failure(kind)
                    &&& *final(out) == *old(out)
                },
            },
    {
        let offset = O::between(from, to)?;
        *out = Some(RawRelPtr { offset, base: from });
        Ok(())
    }

    /// Gets the base pointer for the relative pointer.
    pub fn base(&self) -> (r: usize)
        ensures
            r == self.base_address(),
    {
        self.base
    }

    /// Gets the mutable base pointer for the relative pointer.
    pub fn base_mut(&mut self) -> (r: usize)
        ensures
            r == old(self).base_address(),
            *final(self) == *old(self),
    {
        self.base
    }

    /// Gets the offset of the relative pointer from its base.
    pub fn offset(&self) -> (r: isize)
        ensures
            r as int == self.stored_distance(),
    {
        proof {
            use_type_invariant(self);
        }
        self.offset.to_isize()
    }

    /// Calculates the memory address being pointed to by this relative
    /// pointer.
    pub fn as_ptr(&self) -> (r: usize)
        ensures
            r as int == self.target(),
    {
        proof {
            use_type_invariant(self);
        }
        self.base.wrapping_add_signed(self.offset.to_isize())
    }

    /// Returns the memory address being pointed to by this relative pointer,
    /// for a caller that is going to write there.
    pub fn as_mut_ptr(&mut self) -> (r: usize)
        ensures
            r as int == old(self).target(),
            *final(self) == *old(self),
    {
        proof {
            use_type_invariant(&*self);
        }
        self.base.wrapping_add_signed(self.offset.to_isize())
    }
}

/// A raw relative pointer that uses an `i8` as the underlying offset.
pub type RawRelPtrI8 = RawRelPtr<i8>;

/// A raw relative pointer that uses an `i16` as the underlying offset.
pub type RawRelPtrI16 = RawRelPtr<i16>;

/// A raw relative pointer that uses an `i32` as the underlying offset.
pub type RawRelPtrI32 = RawRelPtr<i32>;

/// A raw relative pointer that uses an `i64` as the underlying offset.
pub type RawRelPtrI64 = RawRelPtr<i64>;

/// A raw relative pointer that uses a `u8` as the underlying offset.
pub type RawRelPtrU8 = RawRelPtr<u8>;

/// A raw relative pointer that uses a `u16` as the underlying offset.
pub type RawRelPtrU16 = RawRelPtr<u16>;

/// A raw relative pointer that uses a `u32` as the underlying offset.
pub type RawRelPtrU32 = RawRelPtr<u32>;

/// A raw relative pointer that uses a `u64` as the underlying offset.
pub type RawRelPtrU64 = RawRelPtr<u64>;

/// The offset between two positions does not depend on where the archive
/// lies: in an archive that is loaded at the address `archive`, building the
/// offset from the addresses of the two positions has the outcome that
/// building it from the positions has, for every offset type.
pub proof fn lemma_offset_is_position_independent<O: Offset>(
    archive: usize,
    from: usize,
    to: usize,
)
    requires
        address_at(archive as int, from) <= usize::MAX,
        address_at(archive as int, to) <= usize::MAX,
    ensures
        distance((archive + from) as usize, (archive + to) as usize) == distance(from, to),
        between_spec(
            (archive + from) as usize,
            (archive + to) as usize,
            O::storage_min(),
            O::storage_max(),
        ) == between_spec(from, to, O::storage_min(), O::storage_max()),
{
}

} // verus!
