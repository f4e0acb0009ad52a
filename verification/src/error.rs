//! The ways in which building an offset or a relative pointer can fail.

use vstd::prelude::*;

verus! {

/// The distance between two positions cannot be stored as an offset.
#[derive(Clone, Copy, Debug, PartialEq, Eq, Structural)]
pub enum OffsetError {
    /// The distance does not fit the range of `isize`: no offset width can
    /// hold it.
    IsizeOverflow,
    /// The distance fits `isize`, but not the offset type of the pointer: a
    /// wider offset type would hold it.
    ExceedsStorageRange,
}

impl OffsetError {
    /// The text that describes each failure.
    pub open spec fn text(self) -> Seq<char> {
        match self {
            OffsetError::IsizeOverflow => "the offset overflowed the range of `isize`"@,
            OffsetError::ExceedsStorageRange =>
                "the offset is too far for the offset type of the relative pointer"@,
        }
    }

    /// Describes the failure in words.
    pub fn to_string(&self) -> (r: String)
        ensures
            r@ == self.text(),
    {
        match self {
            OffsetError::IsizeOverflow => "the offset overflowed the range of `isize`".to_owned(),
            OffsetError::ExceedsStorageRange =>
                "the offset is too far for the offset type of the relative pointer".to_owned(),
        }
    }
}

/// Errors that can occur while creating raw relative pointers.
#[derive(Clone, Copy, Debug, PartialEq, Eq, Structural)]
pub enum RelPtrError {
    /// The given `from` and `to` positions failed to form a valid offset,
    /// most likely because the offset type cannot hold their distance.
    OffsetError,
}

} // verus!
