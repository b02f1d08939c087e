use enviro_sensors::crc::crc8;

/// The published reference vector for this polynomial and initial value.
#[test]
fn crc8_reference_vector() {
    assert_eq!(crc8(&[0xbe, 0xef]), 0x92);
}

#[test]
fn crc8_empty_is_initial_value() {
    assert_eq!(crc8(&[]), 0xFF);
}

#[test]
fn crc8_single_byte() {
    // One byte 0x00: eight rounds from 0xFF.
    assert_eq!(crc8(&[0x00]), 0xAC);
}

#[test]
fn crc8_depends_on_order() {
    assert_ne!(crc8(&[0xbe, 0xef]), crc8(&[0xef, 0xbe]));
}
