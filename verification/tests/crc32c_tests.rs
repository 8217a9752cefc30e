use orioledb::crc32c::{comp_crc32c, fin_crc32c, init_crc32c};

#[test]
fn crc32c_standard_check_value() {
    let crc = comp_crc32c(init_crc32c(), b"123456789");
    assert_eq!(crc, 0xE306_9283);
    assert_eq!(comp_crc32c(0, b"123456789"), 0xE306_9283);
}

#[test]
fn crc32c_empty_input_keeps_state() {
    assert_eq!(init_crc32c(), 0);
    assert_eq!(comp_crc32c(0, b""), 0);
    assert_eq!(comp_crc32c(0x1234_5678, b""), 0x1234_5678);
}

#[test]
fn crc32c_incremental_equals_whole() {
    let whole = comp_crc32c(0, b"hello, checkpoint control");
    let part = comp_crc32c(comp_crc32c(0, b"hello, "), b"checkpoint control");
    assert_eq!(whole, part);
    let digits = comp_crc32c(comp_crc32c(init_crc32c(), b"1234"), b"56789");
    assert_eq!(digits, 0xE306_9283);
}

#[test]
fn crc32c_finalize_is_complement() {
    let crc = comp_crc32c(0, b"123456789");
    assert_eq!(fin_crc32c(crc), !0xE306_9283u32);
    assert_eq!(fin_crc32c(fin_crc32c(crc)), crc);
}

#[test]
fn crc32c_known_vectors() {
    // 32 zero bytes and 32 0xFF bytes (RFC 3720 test patterns).
    assert_eq!(comp_crc32c(0, &[0u8; 32]), 0x8A91_36AA);
    assert_eq!(comp_crc32c(0, &[0xFFu8; 32]), 0x62A8_AB43);
}
