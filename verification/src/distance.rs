//! The signed distance between two positions of an archive.
//!
//! A position is a byte count from the start of the archive. The distance
//! from one position to another is their difference as a mathematical
//! integer; it can be used for address arithmetic only where it fits `isize`.

use vstd::prelude::*;
use crate::error::OffsetError;

verus! {

/// The distance from `from` to `to`, as an unbounded integer.
pub open spec fn distance(from: usize, to: usize) -> int {
    to as int - from as int
}

/// Whether `d` lies in the range of `isize`.
pub open spec fn fits_isize(d: int) -> bool {
    isize::MIN as int <= d <= isize::MAX as int
}

/// What [`signed_offset`] returns: the distance where it fits `isize`, and
/// `IsizeOverflow` where it does not.
pub open spec fn signed_offset_spec(from: usize, to: usize) -> Result<isize, OffsetError> {
    if fits_isize(distance(from, to)) {
        Ok(distance(from, to) as isize)
    } else {
        Err(OffsetError::IsizeOverflow)
    }
}

/// The address of the archive position `position`, in an archive that starts
/// at the address `archive`.
pub open spec fn address_at(archive: int, position: usize) -> int {
    archive + position as int
}

/// Calculates the offset between two positions as an `isize`.
///
/// The whole range of `isize` is available: a distance of `isize::MIN` is
/// returned as such, and anything beyond either end is an overflow.
pub fn signed_offset(from: usize, to: usize) -> (r: Result<isize, OffsetError>)
    ensures
        r == signed_offset_spec(from, to),
        r is Ok <==> fits_isize(distance(from, to)),
        r matches Ok(d) ==> d as int == distance(from, to),
        r matches Err(e) ==> e == OffsetError::IsizeOverflow,
{
    let max: usize = isize::MAX as usize;
    if to >= from {
        let ahead: usize = to - from;
        if ahead <= max {
            Ok(ahead as isize)
        } else {
            Err(OffsetError::IsizeOverflow)
        }
    } else {
        // The negative side reaches one further than the positive side.
        let behind: usize = from - to - 1;
        if behind <= max {
            Ok(-1 - (behind as isize))
        } else {
            Err(OffsetError::IsizeOverflow)
        }
    }
}

/// Adding the signed offset to the address of `from` gives the address of
/// `to`, wherever the archive starts.
pub proof fn lemma_signed_offset_inverse(archive: int, from: usize, to: usize)
    ensures
        signed_offset_spec(from, to) is Ok <==> fits_isize(distance(from, to)),
        signed_offset_spec(from, to) matches Ok(d) ==> address_at(archive, from) + d as int
            == address_at(archive, to),
{
}

} // verus!
