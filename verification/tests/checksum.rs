use mavlink_ftp::crc32::{crc32_table, table_entry};
use mavlink_ftp::mavftp::mavlink_crc32;

#[test]
fn crc32_of_nothing_is_zero() {
    assert_eq!(mavlink_crc32(&[]), 0x0000_0000);
}

#[test]
fn crc32_of_the_check_string() {
    // The register starts at zero and is not inverted at the end.
    assert_eq!(mavlink_crc32(b"123456789"), 0x2dfd_2d88);
}

#[test]
fn crc32_is_the_standard_polynomial() {
    // With the first four bytes inverted going in, and the register inverted
    // coming out, the same division gives the standard check value.
    let mut message = b"123456789".to_vec();
    for byte in message.iter_mut().take(4) {
        *byte = !*byte;
    }
    assert_eq!(!mavlink_crc32(&message), 0xcbf4_3926);
}

#[test]
fn crc32_of_single_bytes() {
    assert_eq!(mavlink_crc32(&[0]), 0);
    assert_eq!(mavlink_crc32(&[1]), 0x7707_3096);
    assert_eq!(mavlink_crc32(b"a"), 0x3ab5_51ce);
    assert_eq!(mavlink_crc32(&[255]), 0x2d02_ef8d);
}

#[test]
fn crc32_ignores_leading_zeros() {
    assert_eq!(mavlink_crc32(&[0, 0, 0, 1]), mavlink_crc32(&[1]));
}

#[test]
fn crc32_table_entries() {
    let table = crc32_table();
    assert_eq!(table.len(), 256);
    assert_eq!(table[0], 0x0000_0000);
    assert_eq!(table[1], 0x7707_3096);
    assert_eq!(table[2], 0xee0e_612c);
    assert_eq!(table[8], 0x0edb_8832);
    assert_eq!(table[128], 0xedb8_8320);
    assert_eq!(table[255], 0x2d02_ef8d);
    for index in 0..=255u8 {
        assert_eq!(table[index as usize], table_entry(index));
    }
}
