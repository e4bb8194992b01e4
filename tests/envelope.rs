use smbioslib::{DecodeError, SMBiosVersion, WinSMBiosData};

#[test]
fn test_is_valid_raw_smbios_data() {
    // Good structure (lengths are correct)
    let struct_data = vec![0x00u8, 0x03, 0x03, 0x00, 0x01, 0x00, 0x00, 0x00, 0xAB];
    assert!(WinSMBiosData::is_valid_win_smbios_data(&struct_data));

    // Bad structure (too short)
    let struct_data = vec![0x00u8, 0x03, 0x03];
    assert!(!WinSMBiosData::is_valid_win_smbios_data(&struct_data));

    // Bad structure (bad table data length)
    let struct_data = vec![0x00u8, 0x03, 0x03, 0x00, 0xFF, 0x00, 0x00, 0x00, 0xAB];
    assert!(!WinSMBiosData::is_valid_win_smbios_data(&struct_data));
}

#[test]
fn test_win_smbios_data_headers() {
    let raw_win_data = vec![0x00u8, 0x03, 0x04, 0x00, 0x01, 0x00, 0x00, 0x00, 0x00];

    let win_smbios_data = WinSMBiosData::new(raw_win_data).unwrap();

    assert_eq!(win_smbios_data.used20_calling_method(), 0x00);
    assert_eq!(win_smbios_data.smbios_major_version(), 0x03);
    assert_eq!(win_smbios_data.smbios_minor_version(), 0x04);
    assert_eq!(win_smbios_data.dmi_revision(), 0x00);
    assert_eq!(win_smbios_data.table_data_length(), 0x01);
}

#[test]
fn test_win_smbios_data_constructor() {
    let raw_win_data = vec![0x00u8, 0x03, 0x04, 0x00, 0x02, 0x00, 0x00, 0x00, 0x10, 0xFF];

    let win_smbios_data = WinSMBiosData::new(raw_win_data.clone()).unwrap();

    assert_eq!(win_smbios_data.raw_smbios_data(), &raw_win_data[..8]);
}

#[test]
fn envelope_valid_example_yields_version_and_payload() {
    let raw = vec![0x00u8, 0x03, 0x03, 0x00, 0x01, 0x00, 0x00, 0x00, 0xAB];
    let w = WinSMBiosData::new(raw).unwrap();
    assert_eq!(w.smbios_major_version(), 3);
    assert_eq!(w.smbios_minor_version(), 3);
    assert_eq!(w.dmi_revision(), 0);
    assert_eq!(w.table_data_length(), 1);
    assert_eq!(w.smbios_data().raw_data(), &[0xABu8][..]);
    assert_eq!(
        w.smbios_data().version(),
        Some(SMBiosVersion { major: 3, minor: 3, revision: 0 })
    );
}

#[test]
fn envelope_too_short_is_malformed() {
    let r = WinSMBiosData::new(vec![0x00u8, 0x03, 0x03]);
    assert!(matches!(r, Err(DecodeError::MalformedEnvelope)));
}

#[test]
fn envelope_length_mismatch_is_malformed() {
    let r = WinSMBiosData::new(vec![0x00u8, 0x03, 0x03, 0x00, 0xFF, 0x00, 0x00, 0x00, 0xAB]);
    assert!(matches!(r, Err(DecodeError::MalformedEnvelope)));
}

#[test]
fn envelope_of_exactly_eight_bytes_is_malformed() {
    let raw = vec![0x00u8, 0x03, 0x03, 0x00, 0x00, 0x00, 0x00, 0x00];
    assert!(!WinSMBiosData::is_valid_win_smbios_data(&raw));
    assert!(WinSMBiosData::new(raw).is_err());
}

#[test]
fn envelope_length_uses_all_four_bytes() {
    let mut raw = vec![0x01u8, 0x02, 0x08, 0x01, 0x00, 0x01, 0x00, 0x00];
    raw.extend(std::iter::repeat(0u8).take(256));
    let w = WinSMBiosData::new(raw).unwrap();
    assert_eq!(w.table_data_length(), 256);
    assert_eq!(w.used20_calling_method(), 1);
    assert_eq!(w.dmi_revision(), 1);

    let mut bad = vec![0x00u8, 0x03, 0x03, 0x00, 0x01, 0x00, 0x00, 0x01];
    bad.push(0xAB);
    assert!(!WinSMBiosData::is_valid_win_smbios_data(&bad));
}
