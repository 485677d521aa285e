use motorctl::address::{
    base_address, device_number_of, family_of, family_tag_of, follower_id, DeviceFamily,
    TALON_SRX_TAG, VICTOR_SPX_TAG,
};

#[test]
fn address_round_trip_for_every_device_number() {
    for family in [DeviceFamily::TalonSRX, DeviceFamily::VictorSPX] {
        for n in 0..=62 {
            let address = base_address(family, n);
            assert_eq!(device_number_of(address), n);
            assert_eq!(family_tag_of(address), family.tag());
            assert_eq!(family_of(address), Some(family));
        }
    }
}

#[test]
fn family_tags() {
    assert_eq!(DeviceFamily::TalonSRX.tag(), 0x0204_0000);
    assert_eq!(DeviceFamily::VictorSPX.tag(), 0x0104_0000);
    assert_eq!(TALON_SRX_TAG, 0x0204_0000);
    assert_eq!(VICTOR_SPX_TAG, 0x0104_0000);
    assert_eq!(base_address(DeviceFamily::TalonSRX, 5), 0x0204_0005);
    assert_eq!(base_address(DeviceFamily::VictorSPX, 62), 0x0104_003e);
}

#[test]
fn address_without_a_tag_has_no_family() {
    assert_eq!(family_of(5), None);
    assert_eq!(family_of(0x0304_0005), None);
    assert_eq!(family_of(-1), None);
}

#[test]
fn out_of_range_device_number_is_not_checked() {
    assert_eq!(base_address(DeviceFamily::TalonSRX, 64), 0x0204_0040);
    assert_eq!(base_address(DeviceFamily::TalonSRX, -1), -1);
    assert_eq!(device_number_of(-1), 63);
}

#[test]
fn follower_id_repacks_the_address() {
    assert_eq!(follower_id(0x0204_0005), 0x02_0405);
    assert_eq!(follower_id(0x0104_003e), 0x01_043e);
    for family in [DeviceFamily::TalonSRX, DeviceFamily::VictorSPX] {
        for n in 0..=62 {
            let a = base_address(family, n);
            assert_eq!(follower_id(a), ((a >> 16) << 8) | (a & 0xff));
            assert_eq!(follower_id(a), family.tag() / 256 + n);
        }
    }
    assert_eq!(follower_id(-1), -1);
    assert_eq!(follower_id(0x1234_5678), 0x12_3478);
}
