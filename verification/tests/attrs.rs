use ls_core::attrs::{attributes_field, decode_attributes};

#[test]
fn all_flags_listed_in_table_order() {
    // Directory, reparse-point/symlink, read-only, hidden, system,
    // archive, compressed, encrypted: every table bit set.
    let mask: u32 = 0x10 | 0x400 | 0x1 | 0x2 | 0x4 | 0x20 | 0x800 | 0x4000;
    assert_eq!(
        decode_attributes(mask),
        "Directory | Symlink | ReadOnly | Hidden | System | Archive | Compressed | Encrypted"
    );
}

#[test]
fn zero_mask_is_normal() {
    assert_eq!(decode_attributes(0), "Normal");
}

#[test]
fn mask_without_table_bits_is_normal() {
    // 0x40 (a device bit) is real but not in the table.
    assert_eq!(decode_attributes(0x40), "Normal");
}

#[test]
fn single_flag() {
    assert_eq!(decode_attributes(0x1), "ReadOnly");
    assert_eq!(decode_attributes(0x20), "Archive");
}

#[test]
fn two_flags_table_order_not_bit_order() {
    // Hidden (0x2) and ReadOnly (0x1): the table lists ReadOnly first.
    assert_eq!(decode_attributes(0x2 | 0x1), "ReadOnly | Hidden");
    // Directory (0x10) outranks ReadOnly (0x1) despite the larger bit.
    assert_eq!(decode_attributes(0x10 | 0x1), "Directory | ReadOnly");
}

#[test]
fn failed_query_yields_placeholder() {
    assert_eq!(attributes_field(u32::MAX), "attributes unavailable");
}

#[test]
fn successful_query_is_decoded() {
    assert_eq!(attributes_field(0x20), "Archive");
    assert_eq!(attributes_field(0), "Normal");
}
