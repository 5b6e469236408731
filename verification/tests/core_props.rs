//! Checksum, hex-dump and packed-field behaviour on concrete values.

use etherecho::checksum::checksum;
use etherecho::dump::data_format;
use etherecho::headers::{FlagsOffset, VersionIhl};

#[test]
fn checksum_of_zeros_is_all_ones() {
    let data = [0u8; 8];
    assert_eq!(checksum(&data, 8), 0xFFFF);
}

#[test]
fn checksum_known_value() {
    // The worked example from RFC 1071: words 0x0001, 0xf203, 0xf4f5,
    // 0xf6f7 sum to 0x2ddf0, fold to 0xddf2, complement to 0x220d.
    let data = [0x00u8, 0x01, 0xf2, 0x03, 0xf4, 0xf5, 0xf6, 0xf7];
    assert_eq!(checksum(&data, 8), 0x220d);
}

#[test]
fn checksum_verifies_to_zero_once_inserted() {
    // Insert the computed checksum into the zeroed checksum word; the
    // checksum of the patched bytes must then come out as zero.
    let mut data = [0x45u8, 0x00, 0x00, 0x24, 0x1b, 0xcd, 0x40, 0x00, 0x40, 0x01, 0x00, 0x00,
        10, 0, 0, 5, 10, 0, 0, 1];
    let c = checksum(&data, 20);
    data[10] = (c >> 8) as u8;
    data[11] = (c & 0xFF) as u8;
    assert_eq!(checksum(&data, 20), 0);
}

#[test]
fn checksum_prefix_only() {
    // Only the first `len` bytes take part.
    let data = [0x12u8, 0x34, 0xFF, 0xFF];
    assert_eq!(checksum(&data, 2), !0x1234u16);
}

#[test]
fn data_format_whole_slice() {
    // Position 0 gets both separators; each byte prints as two hex
    // digits and a space.
    let data = [0x00u8, 0x01];
    assert_eq!(data_format(&data, 0), " \n00 01 ");
}

#[test]
fn data_format_prefix_and_overrun() {
    let data = [0xabu8, 0xcd, 0xef];
    assert_eq!(data_format(&data, 1), " \nab ");
    // An end past the slice formats the whole slice.
    assert_eq!(data_format(&data, 7), " \nab cd ef ");
}

#[test]
fn data_format_separators() {
    let data = [0u8; 9];
    // A space every 4 bytes, a newline every 8.
    assert_eq!(
        data_format(&data, 0),
        " \n00 00 00 00  00 00 00 00  \n00 "
    );
}

#[test]
fn version_ihl_nibbles() {
    let v = VersionIhl { version_ihl: 0x45 };
    assert_eq!(v.version(), 4);
    assert_eq!(v.ihl(), 5);
    let w = VersionIhl { version_ihl: 0x4f };
    assert_eq!(w.version(), 4);
    assert_eq!(w.ihl(), 15);
}

#[test]
fn flags_offset_fields() {
    // Both flags set, offset maximal.
    let f = FlagsOffset { flags_offset: 0x7FFF };
    assert!(!f.bit0());
    assert!(f.bit1());
    assert!(f.bit2());
    assert_eq!(f.offset(), 0x1FFF);
    // Only the more-fragments flag set.
    let g = FlagsOffset { flags_offset: 0x2001 };
    assert!(!g.bit1());
    assert!(g.bit2());
    assert_eq!(g.offset(), 1);
    // Only the don't-fragment flag set.
    let h = FlagsOffset { flags_offset: 0x4000 };
    assert!(h.bit1());
    assert!(!h.bit2());
    assert_eq!(h.offset(), 0);
    // Neither flag set.
    let z = FlagsOffset { flags_offset: 0x1FFF };
    assert!(!z.bit1());
    assert!(!z.bit2());
    assert_eq!(z.offset(), 0x1FFF);
}
