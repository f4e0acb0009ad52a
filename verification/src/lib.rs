//! Relative pointers: references stored as the signed byte distance from
//! their own place in an archive to the value they point to.
//!
//! An archive that holds only such pointers can be moved to any address and
//! read where it lies. Pointers are written while the archive is built, from
//! positions alone, and read once it is complete:
//!
//! - [`signed_offset`] measures the distance between two positions;
//! - an [`Offset`] type stores a distance in a fixed width, and says which
//!   distances it can hold;
//! - a [`RawRelPtr`] is the pointer itself: an offset and the place it was
//!   written at;
//! - a [`RelPtr`] adds the archived metadata of the value it points to, through
//!   [`ArchiveUnsized`] and [`ArchivePointee`].

pub mod distance;
pub mod error;
pub mod offset;
pub mod pointee;
pub mod raw;
pub mod rel;

pub use crate::distance::signed_offset;
pub use crate::error::{OffsetError, RelPtrError};
pub use crate::offset::Offset;
pub use crate::pointee::{ArchivePointee, ArchiveUnsized, ArchivedMetadata, ArchivedShape};
pub use crate::raw::{
    RawRelPtr, RawRelPtrI16, RawRelPtrI32, RawRelPtrI64, RawRelPtrI8, RawRelPtrU16, RawRelPtrU32,
    RawRelPtrU64, RawRelPtrU8,
};
pub use crate::rel::RelPtr;
