use my_ktv::convert::DeviceSample;

#[test]
fn i16_conversion_values() {
    assert_eq!(<i16 as DeviceSample>::from_sample(0x4000_0000), 0x4000);
    assert_eq!(<i16 as DeviceSample>::from_sample(i32::MIN), i16::MIN);
    assert_eq!(<i16 as DeviceSample>::from_sample(i32::MAX), i16::MAX);
    assert_eq!(<i16 as DeviceSample>::from_sample(-1), 0);
    assert_eq!(<i16 as DeviceSample>::from_sample(0xC000), 1);
    assert_eq!(<i16 as DeviceSample>::from_sample(0x8000), 1);
    assert_eq!(<i16 as DeviceSample>::from_sample(0x7FFF), 0);
    assert_eq!(<i16 as DeviceSample>::from_sample(-0x8001), -1);
    assert_eq!(<i16 as DeviceSample>::from_sample(0x7FFF_8000), i16::MAX);
    assert_eq!(<i16 as DeviceSample>::to_sample(0x4000), 0x4000_0000);
    assert_eq!(<i16 as DeviceSample>::to_sample(-1), -0x1_0000);
}

#[test]
fn u8_conversion_values() {
    assert_eq!(<u8 as DeviceSample>::from_sample(0), 128);
    assert_eq!(<u8 as DeviceSample>::from_sample(i32::MIN), 0);
    assert_eq!(<u8 as DeviceSample>::from_sample(i32::MAX), 255);
    assert_eq!(<u8 as DeviceSample>::from_sample(0x4000_0000), 192);
    assert_eq!(<u8 as DeviceSample>::from_sample(0xC0_0000), 129);
    assert_eq!(<u8 as DeviceSample>::from_sample(-0xC0_0000), 127);
    assert_eq!(<u8 as DeviceSample>::from_sample(0x7F80_0000), 255);
    assert_eq!(<u8 as DeviceSample>::to_sample(128), 0);
    assert_eq!(<u8 as DeviceSample>::to_sample(0), i32::MIN);
    assert_eq!(<u8 as DeviceSample>::to_sample(192), 0x4000_0000);
}

#[test]
fn silence_values() {
    assert_eq!(<u8 as DeviceSample>::silence(), 128);
    assert_eq!(<i16 as DeviceSample>::silence(), 0);
    assert_eq!(<i32 as DeviceSample>::silence(), 0);
}

#[test]
fn round_trip_within_half_a_step() {
    for s in [i32::MIN, -123_456_789, -1, 0, 1, 65_535, 65_536, 987_654_321, i32::MAX] {
        let back16 = <i16 as DeviceSample>::to_sample(<i16 as DeviceSample>::from_sample(s));
        let d16 = s as i64 - back16 as i64;
        assert!(d16 >= -(1 << 15) && d16 < 1 << 16);
        if s < 0x7FFF_8000 {
            assert!(d16 < 1 << 15);
        }
        let back8 = <u8 as DeviceSample>::to_sample(<u8 as DeviceSample>::from_sample(s));
        let d8 = s as i64 - back8 as i64;
        assert!(d8 >= -(1 << 23) && d8 < 1 << 24);
        if s < 0x7F80_0000 {
            assert!(d8 < 1 << 23);
        }
        let back32 = <i32 as DeviceSample>::to_sample(<i32 as DeviceSample>::from_sample(s));
        assert_eq!(back32, s);
    }
}
