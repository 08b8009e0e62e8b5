use boot_echo::net_config::{u64_from_le_bytes, StaticIpv4Config};

#[test]
fn device_configuration_fields() {
    let config = StaticIpv4Config::new([192, 168, 2, 31], 24, Some([192, 168, 2, 1]));
    assert_eq!(config.address, [192, 168, 2, 31]);
    assert_eq!(config.prefix_len, 24);
    assert_eq!(config.gateway, Some([192, 168, 2, 1]));
}

#[test]
fn seed_word_from_little_endian_bytes() {
    // The stack seed as deployed; the last byte is 0x2C.
    let seed = u64_from_le_bytes(&[0x11, 0x22, 0x33, 0x21, 0x12, 0x89, 0x76, 0x2C]);
    assert_eq!(seed, 0x2C76_8912_2133_2211);
}

#[test]
fn seed_word_edge_values() {
    assert_eq!(u64_from_le_bytes(&[0; 8]), 0);
    assert_eq!(u64_from_le_bytes(&[1, 0, 0, 0, 0, 0, 0, 0]), 1);
    assert_eq!(u64_from_le_bytes(&[0, 0, 0, 0, 0, 0, 0, 1]), 1u64 << 56);
    assert_eq!(u64_from_le_bytes(&[0xFF; 8]), u64::MAX);
}
