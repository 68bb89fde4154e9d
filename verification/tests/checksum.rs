use cocktail_bot_hal::hal::checksum::{crc32_of, hex8_string};
use cocktail_bot_hal::hal::crc32_hex;
use cocktail_bot_hal::server::handlers::config::{backup_checksum, check_backup_checksum};

#[test]
fn crc32_hex_consistent() {
    let a = crc32_hex(b"hello");
    let b = crc32_hex(b"hello");
    assert_eq!(a, b);
    assert_ne!(a, crc32_hex(b"world"));
    assert_eq!(a.len(), 8);
}

#[test]
fn crc32_known_values() {
    assert_eq!(crc32_hex(b"123456789"), "cbf43926");
    assert_eq!(crc32_hex(b"hello"), "3610a686");
    assert_eq!(crc32_hex(b""), "00000000");
    assert_eq!(crc32_of(b"a"), 0xe8b7be43);
}

#[test]
fn hex8_zero_pads() {
    assert_eq!(hex8_string(0), "00000000");
    assert_eq!(hex8_string(0xabc), "00000abc");
    assert_eq!(hex8_string(0xffff_ffff), "ffffffff");
}

#[test]
fn backup_checksum_is_accepted_on_restore() {
    let data = br#"{"liquids":[],"glass_types":[]}"#;
    let sum = backup_checksum(data);
    assert!(check_backup_checksum(data, &sum).is_none());
    let other = br#"{"liquids":[],"glass_types":[1]}"#;
    let reply = check_backup_checksum(other, &sum).expect("tampered data must be refused");
    assert_eq!(reply.status_code(), 422);
}
