use rel_ptr::{signed_offset, Offset, OffsetError};

const MAX: usize = isize::MAX as usize;

/// What building an offset comes to for a width that stores `min..=max`,
/// worked out from the signed offset.
fn expected(from: usize, to: usize, min: i128, max: i128) -> Result<i128, OffsetError> {
    match signed_offset(from, to) {
        Err(_) => Err(OffsetError::IsizeOverflow),
        Ok(d) => {
            if min <= d as i128 && d as i128 <= max {
                Ok(d as i128)
            } else {
                Err(OffsetError::ExceedsStorageRange)
            }
        }
    }
}

fn positions() -> Vec<usize> {
    vec![
        0,
        1,
        2,
        100,
        127,
        128,
        129,
        150,
        255,
        256,
        400,
        32_767,
        32_768,
        32_769,
        65_535,
        65_536,
        0x7fff_ffff,
        0x8000_0000,
        0x8000_0001,
        0xffff_ffff,
        MAX - 1,
        MAX,
        MAX + 1,
        MAX + 2,
        usize::MAX - 1,
        usize::MAX,
    ]
}

#[test]
fn between_places_fifty_bytes_ahead() {
    assert_eq!(<i8 as Offset>::between(100, 150), Ok(50));
    assert_eq!(<i8 as Offset>::between(100, 150).unwrap().to_isize(), 50);
}

#[test]
fn between_three_hundred_bytes_is_too_far_for_i8() {
    assert_eq!(<i8 as Offset>::between(100, 400), Err(OffsetError::ExceedsStorageRange));
    assert_eq!(<i16 as Offset>::between(100, 400), Ok(300));
}

#[test]
fn between_overflows_whatever_the_width() {
    let to = MAX + 1;
    assert_eq!(<i8 as Offset>::between(0, to), Err(OffsetError::IsizeOverflow));
    assert_eq!(<i16 as Offset>::between(0, to), Err(OffsetError::IsizeOverflow));
    assert_eq!(<i32 as Offset>::between(0, to), Err(OffsetError::IsizeOverflow));
    assert_eq!(<i64 as Offset>::between(0, to), Err(OffsetError::IsizeOverflow));
    assert_eq!(<u8 as Offset>::between(0, to), Err(OffsetError::IsizeOverflow));
    assert_eq!(<u16 as Offset>::between(0, to), Err(OffsetError::IsizeOverflow));
    assert_eq!(<u32 as Offset>::between(0, to), Err(OffsetError::IsizeOverflow));
    assert_eq!(<u64 as Offset>::between(0, to), Err(OffsetError::IsizeOverflow));
    assert_eq!(<i8 as Offset>::between(to + 1, 0), Err(OffsetError::IsizeOverflow));
    assert_eq!(<u64 as Offset>::between(usize::MAX, 0), Err(OffsetError::IsizeOverflow));
}

#[test]
fn between_i8_range() {
    assert_eq!(<i8 as Offset>::between(0, 127), Ok(127));
    assert_eq!(<i8 as Offset>::between(0, 128), Err(OffsetError::ExceedsStorageRange));
    assert_eq!(<i8 as Offset>::between(128, 0), Ok(-128));
    assert_eq!(<i8 as Offset>::between(129, 0), Err(OffsetError::ExceedsStorageRange));
    assert_eq!(<i8 as Offset>::between(9, 9), Ok(0));
}

#[test]
fn between_i16_range() {
    assert_eq!(<i16 as Offset>::between(0, 32_767), Ok(32_767));
    assert_eq!(<i16 as Offset>::between(0, 32_768), Err(OffsetError::ExceedsStorageRange));
    assert_eq!(<i16 as Offset>::between(32_768, 0), Ok(-32_768));
    assert_eq!(<i16 as Offset>::between(32_769, 0), Err(OffsetError::ExceedsStorageRange));
}

#[test]
fn between_i32_range() {
    assert_eq!(<i32 as Offset>::between(0, 0x7fff_ffff), Ok(i32::MAX));
    assert_eq!(<i32 as Offset>::between(5, 0x7fff_ffff + 5), Ok(i32::MAX));
    assert_eq!(<i32 as Offset>::between(0x7fff_ffff, 0), Ok(-i32::MAX));
    assert_eq!(<i32 as Offset>::between(0x8000_0000, 0), Ok(i32::MIN));
    assert_eq!(<i32 as Offset>::between(1000, 10), Ok(-990));
}

#[test]
fn between_i64_range() {
    assert_eq!(<i64 as Offset>::between(0, MAX), Ok(isize::MAX as i64));
    assert_eq!(<i64 as Offset>::between(MAX + 1, 0), Ok(isize::MIN as i64));
    assert_eq!(<i64 as Offset>::between(70_000, 0), Ok(-70_000));
}

#[test]
fn between_u8_range() {
    assert_eq!(<u8 as Offset>::between(0, 255), Ok(255));
    assert_eq!(<u8 as Offset>::between(0, 256), Err(OffsetError::ExceedsStorageRange));
    assert_eq!(<u8 as Offset>::between(40, 40), Ok(0));
    assert_eq!(<u8 as Offset>::between(1, 0), Err(OffsetError::ExceedsStorageRange));
}

#[test]
fn between_u16_range() {
    assert_eq!(<u16 as Offset>::between(0, 65_535), Ok(65_535));
    assert_eq!(<u16 as Offset>::between(0, 65_536), Err(OffsetError::ExceedsStorageRange));
    assert_eq!(<u16 as Offset>::between(1, 0), Err(OffsetError::ExceedsStorageRange));
}

#[test]
fn between_u32_range() {
    assert_eq!(<u32 as Offset>::between(0, 0x7fff_ffff), Ok(0x7fff_ffff));
    assert_eq!(<u32 as Offset>::between(10, 1000), Ok(990));
    assert_eq!(<u32 as Offset>::between(1, 0), Err(OffsetError::ExceedsStorageRange));
    assert_eq!(<u32 as Offset>::between(MAX + 1, 0), Err(OffsetError::ExceedsStorageRange));
}

#[test]
fn between_u64_range() {
    assert_eq!(<u64 as Offset>::between(0, MAX), Ok(MAX as u64));
    assert_eq!(<u64 as Offset>::between(1, 0), Err(OffsetError::ExceedsStorageRange));
    assert_eq!(<u64 as Offset>::between(MAX + 1, 0), Err(OffsetError::ExceedsStorageRange));
}

#[test]
fn between_narrows_the_signed_offset() {
    for from in positions() {
        for to in positions() {
            assert_eq!(
                <i8 as Offset>::between(from, to).map(|o| o as i128),
                expected(from, to, i8::MIN as i128, i8::MAX as i128)
            );
            assert_eq!(
                <i16 as Offset>::between(from, to).map(|o| o as i128),
                expected(from, to, i16::MIN as i128, i16::MAX as i128)
            );
            assert_eq!(
                <i32 as Offset>::between(from, to).map(|o| o as i128),
                expected(from, to, i32::MIN as i128, i32::MAX as i128)
            );
            assert_eq!(
                <i64 as Offset>::between(from, to).map(|o| o as i128),
                expected(from, to, i64::MIN as i128, i64::MAX as i128)
            );
            assert_eq!(
                <u8 as Offset>::between(from, to).map(|o| o as i128),
                expected(from, to, u8::MIN as i128, u8::MAX as i128)
            );
            assert_eq!(
                <u16 as Offset>::between(from, to).map(|o| o as i128),
                expected(from, to, u16::MIN as i128, u16::MAX as i128)
            );
            assert_eq!(
                <u32 as Offset>::between(from, to).map(|o| o as i128),
                expected(from, to, u32::MIN as i128, u32::MAX as i128)
            );
            assert_eq!(
                <u64 as Offset>::between(from, to).map(|o| o as i128),
                expected(from, to, u64::MIN as i128, u64::MAX as i128)
            );
        }
    }
}

#[test]
fn to_isize_widens() {
    assert_eq!(Offset::to_isize(-128i8), -128);
    assert_eq!(Offset::to_isize(127i8), 127);
    assert_eq!(Offset::to_isize(-32_768i16), -32_768);
    assert_eq!(Offset::to_isize(-70_000i32), -70_000);
    assert_eq!(Offset::to_isize(i32::MAX), 0x7fff_ffff);
    assert_eq!(Offset::to_isize(-70_000i64), -70_000);
    assert_eq!(Offset::to_isize(255u8), 255);
    assert_eq!(Offset::to_isize(65_535u16), 65_535);
    assert_eq!(Offset::to_isize(70_000u32), 70_000);
    assert_eq!(Offset::to_isize(70_000u64), 70_000);
}

#[test]
fn to_isize_gives_back_what_between_stored() {
    for from in positions() {
        for to in positions() {
            if let Ok(offset) = <i16 as Offset>::between(from, to) {
                assert_eq!(Ok(offset.to_isize()), signed_offset(from, to));
            }
            if let Ok(offset) = <u32 as Offset>::between(from, to) {
                assert_eq!(Ok(offset.to_isize()), signed_offset(from, to));
            }
            if let Ok(offset) = <i64 as Offset>::between(from, to) {
                assert_eq!(Ok(offset.to_isize()), signed_offset(from, to));
            }
            if let Ok(offset) = <u64 as Offset>::between(from, to) {
                assert_eq!(Ok(offset.to_isize()), signed_offset(from, to));
            }
        }
    }
}

#[test]
fn to_isize_keeps_the_low_bits_of_a_value_beyond_isize() {
    assert_eq!(Offset::to_isize(u64::MAX), -1);
    assert_eq!(Offset::to_isize(u64::MAX - 299), -300);
}
