//! Offset types: the fixed-width integers in which a relative pointer stores
//! its distance.
//!
//! Building an offset fails in one of two ways, in this order: the distance
//! does not fit `isize` at all, or it does but the chosen width cannot hold
//! it.

use vstd::prelude::*;
use crate::distance::{distance, fits_isize, signed_offset, signed_offset_spec};
use crate::error::OffsetError;

verus! {

/// What building an offset for a width that stores the distances `min..=max`
/// comes to: the distance to store, or the kind of failure.
pub open spec fn between_spec(from: usize, to: usize, min: int, max: int) -> Result<
    int,
    OffsetError,
> {
    if !fits_isize(distance(from, to)) {
        Err(OffsetError::IsizeOverflow)
    } else if !(min <= distance(from, to) <= max) {
        Err(OffsetError::ExceedsStorageRange)
    } else {
        Ok(distance(from, to))
    }
}

/// Building an offset succeeds where the signed offset exists and lies within
/// the range of the width. Where it exists and lies outside, the failure is
/// `ExceedsStorageRange`; where it does not exist, `IsizeOverflow`, whatever
/// the width.
pub proof fn lemma_between_narrows_signed_offset(from: usize, to: usize, min: int, max: int)
    ensures
        match signed_offset_spec(from, to) {
            Ok(d) => if min <= d as int <= max {
                between_spec(from, to, min, max) == Ok::<int, OffsetError>(d as int)
            } else {
                between_spec(from, to, min, max) == Err::<int, OffsetError>(
                    OffsetError::ExceedsStorageRange,
                )
            },
            Err(_) => between_spec(from, to, min, max) == Err::<int, OffsetError>(
                OffsetError::IsizeOverflow,
            ),
        },
{
}

/// An offset that can be used with [`RawRelPtr`](crate::raw::RawRelPtr).
pub trait Offset: Copy {
    /// Any error that can be produced while creating an offset.
    type Error;

    /// The distance that this offset stands for.
    spec fn value(self) -> int;

    /// The least distance that the type can store.
    spec fn storage_min() -> int;

    /// The greatest distance that the type can store.
    spec fn storage_max() -> int;

    /// The error by which the type reports a failure of the given kind.
    spec fn failure(kind: OffsetError) -> Self::Error;

    /// Creates a new offset between a `from` position and a `to` position.
    fn between(from: usize, to: usize) -> (r: Result<Self, Self::Error>)
        ensures
            match between_spec(from, to, Self::storage_min(), Self::storage_max()) {
                Ok(d) => r matches Ok(o) && o.value() == d,
                Err(kind) => r matches Err(e) && e == Self::failure(kind),
            },
    ;

    /// Gets the offset as an `isize`.
    ///
    /// An offset made by `between` is widened as it is, without loss. A value
    /// of the type that lies outside the range of `isize` keeps its low bits
    /// only.
    fn to_isize(self) -> (r: isize)
        ensures
            r == self.value() as isize,
            fits_isize(self.value()) ==> r as int == self.value(),
    ;
}

impl Offset for i8 {
    type Error = OffsetError;

    open spec fn value(self) -> int {
        self as int
    }

    open spec fn storage_min() -> int {
        i8::MIN as int
    }

    open spec fn storage_max() -> int {
        i8::MAX as int
    }

    open spec fn failure(kind: OffsetError) -> OffsetError {
        kind
    }

    fn between(from: usize, to: usize) -> (r: Result<i8, OffsetError>) {
        match i8::try_from(signed_offset(from, to)?) {
            Ok(offset) => Ok(offset),
            Err(_) => Err(OffsetError::ExceedsStorageRange),
        }
    }

    fn to_isize(self) -> (r: isize) {
        self as isize
    }
}

impl Offset for i16 {
    type Error = OffsetError;

    open spec fn value(self) -> int {
        self as int
    }

    open spec fn storage_min() -> int {
        i16::MIN as int
    }

    open spec fn storage_max() -> int {
        i16::MAX as int
    }

    open spec fn failure(kind: OffsetError) -> OffsetError {
        kind
    }

    fn between(from: usize, to: usize) -> (r: Result<i16, OffsetError>) {
        match i16::try_from(signed_offset(from, to)?) {
            Ok(offset) => Ok(offset),
            Err(_) => Err(OffsetError::ExceedsStorageRange),
        }
    }

    fn to_isize(self) -> (r: isize) {
        self as isize
    }
}

impl Offset for i32 {
    type Error = OffsetError;

    open spec fn value(self) -> int {
        self as int
    }

    open spec fn storage_min() -> int {
        i32::MIN as int
    }

    open spec fn storage_max() -> int {
        i32::MAX as int
    }

    open spec fn failure(kind: OffsetError) -> OffsetError {
        kind
    }

    fn between(from: usize, to: usize) -> (r: Result<i32, OffsetError>) {
        match i32::try_from(signed_offset(from, to)?) {
            Ok(offset) => Ok(offset),
            Err(_) => Err(OffsetError::ExceedsStorageRange),
        }
    }

    fn to_isize(self) -> (r: isize) {
        self as isize
    }
}

impl Offset for i64 {
    type Error = OffsetError;

    open spec fn value(self) -> int {
        self as int
    }

    open spec fn storage_min() -> int {
        i64::MIN as int
    }

    open spec fn storage_max() -> int {
        i64::MAX as int
    }

    open spec fn failure(kind: OffsetError) -> OffsetError {
        kind
    }

    fn between(from: usize, to: usize) -> (r: Result<i64, OffsetError>) {
        match i64::try_from(signed_offset(from, to)?) {
            Ok(offset) => Ok(offset),
            Err(_) => Err(OffsetError::ExceedsStorageRange),
        }
    }

    fn to_isize(self) -> (r: isize) {
        #[verifier::truncate]
        (self as isize)
    }
}

impl Offset for u8 {
    type Error = OffsetError;

    open spec fn value(self) -> int {
        self as int
    }

    open spec fn storage_min() -> int {
        u8::MIN as int
    }

    open spec fn storage_max() -> int {
        u8::MAX as int
    }

    open spec fn failure(kind: OffsetError) -> OffsetError {
        kind
    }

    fn between(from: usize, to: usize) -> (r: Result<u8, OffsetError>) {
        match u8::try_from(signed_offset(from, to)?) {
            Ok(offset) => Ok(offset),
            Err(_) => Err(OffsetError::ExceedsStorageRange),
        }
    }

    fn to_isize(self) -> (r: isize) {
        self as isize
    }
}

impl Offset for u16 {
    type Error = OffsetError;

    open spec fn value(self) -> int {
        self as int
    }

    open spec fn storage_min() -> int {
        u16::MIN as int
    }

    open spec fn storage_max() -> int {
        u16::MAX as int
    }

    open spec fn failure(kind: OffsetError) -> OffsetError {
        kind
    }

    fn between(from: usize, to: usize) -> (r: Result<u16, OffsetError>) {
        match u16::try_from(signed_offset(from, to)?) {
            Ok(offset) => Ok(offset),
            Err(_) => Err(OffsetError::ExceedsStorageRange),
        }
    }

    fn to_isize(self) -> (r: isize) {
        self as isize
    }
}

impl Offset for u32 {
    type Error = OffsetError;

    open spec fn value(self) -> int {
        self as int
    }

    open spec fn storage_min() -> int {
        u32::MIN as int
    }

    open spec fn storage_max() -> int {
        u32::MAX as int
    }

    open spec fn failure(kind: OffsetError) -> OffsetError {
        kind
    }

    fn between(from: usize, to: usize) -> (r: Result<u32, OffsetError>) {
        match u32::try_from(signed_offset(from, to)?) {
            Ok(offset) => Ok(offset),
            Err(_) => Err(OffsetError::ExceedsStorageRange),
        }
    }

    fn to_isize(self) -> (r: isize) {
        #[verifier::truncate]
        (self as isize)
    }
}

impl Offset for u64 {
    type Error = OffsetError;

    open spec fn value(self) -> int {
        self as int
    }

    open spec fn storage_min() -> int {
        u64::MIN as int
    }

    open spec fn storage_max() -> int {
        u64::MAX as int
    }

    open spec fn failure(kind: OffsetError) -> OffsetError {
        kind
    }

    fn between(from: usize, to: usize) -> (r: Result<u64, OffsetError>) {
        match u64::try_from(signed_offset(from, to)?) {
            Ok(offset) => Ok(offset),
            Err(_) => Err(OffsetError::ExceedsStorageRange),
        }
    }

    fn to_isize(self) -> (r: isize) {
        #[verifier::truncate]
        (self as isize)
    }
}

} // verus!
