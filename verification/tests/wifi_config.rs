use power_desk::config::{crc16, WifiConfig, WIFI_CONFIG_MAGIC, WIFI_CONFIG_VERSION};

#[test]
fn crc16_known_vector() {
    // the customary check value of this CRC-16 variant
    assert_eq!(crc16(b"123456789"), 0x4B37);
    assert_eq!(crc16(b""), 0xFFFF);
}

#[test]
fn fresh_config_fields() {
    let config = WifiConfig::new();
    assert_eq!(config.magic, WIFI_CONFIG_MAGIC);
    assert_eq!(config.magic, 0x57494649);
    assert_eq!(config.version, WIFI_CONFIG_VERSION);
    assert_eq!(config.checksum, 0);
    assert_eq!(config.ssid, vec![0u8; 32]);
    assert_eq!(config.password, vec![0u8; 64]);
}

#[test]
fn fresh_config_checksum_exact_value() {
    let config = WifiConfig::new();
    assert_eq!(config.calculate_checksum(), 0xAE1E);
}

#[test]
fn populated_config_checksum_exact_value() {
    let mut config = WifiConfig::new();
    config.set_ssid(b"testnet").unwrap();
    config.set_password(b"secret123").unwrap();
    assert_eq!(config.calculate_checksum(), 0x2E23);
}

#[test]
fn set_and_get_roundtrip() {
    let mut config = WifiConfig::new();
    config.set_ssid(b"testnet").unwrap();
    config.set_password(b"secret123").unwrap();
    assert_eq!(config.ssid_len, 7);
    assert_eq!(config.password_len, 9);
    assert_eq!(config.get_ssid().unwrap(), b"testnet");
    assert_eq!(config.get_password().unwrap(), b"secret123");
    // the fields stay zero-padded to capacity
    assert_eq!(&config.ssid[7..], &[0u8; 25]);
}

#[test]
fn too_long_values_are_rejected_unchanged() {
    let mut config = WifiConfig::new();
    assert!(config.set_ssid(&[b'x'; 33]).is_err());
    assert_eq!(config.ssid_len, 0);
    assert!(config.set_password(&[b'y'; 65]).is_err());
    assert_eq!(config.password_len, 0);
    // the boundary lengths are accepted
    assert!(config.set_ssid(&[b'x'; 32]).is_ok());
    assert!(config.set_password(&[b'y'; 64]).is_ok());
}

#[test]
fn update_checksum_makes_the_record_valid() {
    let mut config = WifiConfig::new();
    config.set_ssid(b"net").unwrap();
    config.set_password(b"pass").unwrap();
    assert!(!config.verify_checksum());
    assert!(!config.is_valid());
    config.update_checksum();
    assert!(config.verify_checksum());
    assert!(config.is_valid());
    // any later edit invalidates it again
    config.set_ssid(b"other").unwrap();
    assert!(!config.is_valid());
}

#[test]
fn wrong_magic_or_version_is_invalid() {
    let mut config = WifiConfig::new();
    config.update_checksum();
    assert!(config.is_valid());
    let mut tampered = config.clone();
    tampered.magic = 0x57494648;
    tampered.update_checksum();
    assert!(!tampered.is_valid());
    config.version = 2;
    config.update_checksum();
    assert!(!config.is_valid());
}
