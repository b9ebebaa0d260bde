use lifx_cli::lan::{
    BinarySerializable, DecodeError, SetColorPayload, SetLightPowerPayload, StateServiceResponse,
    ValidationError,
};

#[test]
fn power_on_payload_round_trip_bytes() {
    let p = SetLightPowerPayload::new(true, 0);
    assert_eq!(p.level, 65535);
    assert_eq!(p.serialize(), vec![0xFF, 0xFF, 0x00, 0x00, 0x00, 0x00]);
}

#[test]
fn power_off_payload_bytes() {
    let p = SetLightPowerPayload::new(false, 1000);
    assert_eq!(p.level, 0);
    assert_eq!(p.serialize(), vec![0x00, 0x00, 0xE8, 0x03, 0x00, 0x00]);
}

#[test]
fn hue_full_circle_wraps_to_zero() {
    // 360.0 degrees, held as thousandths
    let p = SetColorPayload::new(360_000, 0, 0, None, 0).unwrap();
    assert_eq!(p.hue, 0);
}

#[test]
fn hue_half_circle_encodes_to_32768() {
    let p = SetColorPayload::new(180_000, 0, 0, None, 0).unwrap();
    assert_eq!(p.hue, 32768);
}

#[test]
fn saturation_and_brightness_bounds_encode_exactly() {
    let full = SetColorPayload::new(0, 1000, 1000, None, 0).unwrap();
    assert_eq!(full.saturation, 65535);
    assert_eq!(full.brightness, 65535);

    let none = SetColorPayload::new(0, 0, 0, None, 0).unwrap();
    assert_eq!(none.saturation, 0);
    assert_eq!(none.brightness, 0);
}

#[test]
fn hue_third_of_circle_rounds_down() {
    // 120.0 degrees: 120 * 65536 / 360 = 21845.33…, rounds to 21845
    let p = SetColorPayload::new(120_000, 0, 0, None, 0).unwrap();
    assert_eq!(p.hue, 21845);
}

#[test]
fn saturation_midpoint_rounds_half_up() {
    // 0.1: 0.1 * 65535 = 6553.5, rounds half up to 6554
    let p = SetColorPayload::new(0, 100, 0, None, 0).unwrap();
    assert_eq!(p.saturation, 6554);
}

#[test]
fn kelvin_forced_to_zero_when_saturated() {
    let saturated = SetColorPayload::new(120_000, 1000, 500, Some(3500), 0).unwrap();
    assert!(saturated.saturation > 0);
    assert_eq!(saturated.kelvin, 0);

    // even the faintest saturation forces kelvin off
    let faint = SetColorPayload::new(0, 1, 500, Some(3500), 0).unwrap();
    assert!(faint.saturation > 0);
    assert_eq!(faint.kelvin, 0);
}

#[test]
fn kelvin_kept_when_unsaturated() {
    let white = SetColorPayload::new(0, 0, 1000, Some(3500), 0).unwrap();
    assert_eq!(white.kelvin, 3500);

    let unspecified = SetColorPayload::new(0, 0, 1000, None, 0).unwrap();
    assert_eq!(unspecified.kelvin, 0);
}

#[test]
fn hue_out_of_range_rejected_before_encoding() {
    // 400.0 degrees
    assert_eq!(
        SetColorPayload::new(400_000, 0, 0, None, 0),
        Err(ValidationError::HueOutOfRange)
    );
    assert_eq!(
        SetColorPayload::new(-1, 0, 0, None, 0),
        Err(ValidationError::HueOutOfRange)
    );
}

#[test]
fn saturation_out_of_range_rejected() {
    // 1.5
    assert_eq!(
        SetColorPayload::new(0, 1500, 0, None, 0),
        Err(ValidationError::SaturationOutOfRange)
    );
    assert_eq!(
        SetColorPayload::new(0, -2, 0, None, 0),
        Err(ValidationError::SaturationOutOfRange)
    );
}

#[test]
fn brightness_out_of_range_rejected() {
    assert_eq!(
        SetColorPayload::new(0, 0, 1001, None, 0),
        Err(ValidationError::BrightnessOutOfRange)
    );
}

#[test]
fn color_payload_is_13_bytes_little_endian() {
    let p = SetColorPayload::new(180_000, 1000, 0, Some(9000), 2000).unwrap();
    let bytes = p.serialize();
    assert_eq!(bytes.len(), 13);
    assert_eq!(bytes[0], 0); // reserved
    assert_eq!(&bytes[1..3], &[0x00, 0x80]); // hue 32768
    assert_eq!(&bytes[3..5], &[0xFF, 0xFF]); // saturation 65535
    assert_eq!(&bytes[5..7], &[0x00, 0x00]); // brightness 0
    assert_eq!(&bytes[7..9], &[0x00, 0x00]); // kelvin forced to 0
    assert_eq!(&bytes[9..13], &[0xD0, 0x07, 0x00, 0x00]); // duration 2000
}

#[test]
fn discovery_response_decodes_service_and_port() {
    let r = StateServiceResponse::decode(&[0x02, 0x34, 0x12, 0x00, 0x00]).unwrap();
    assert_eq!(r.service, 2);
    assert_eq!(r.port, 0x1234);
}

#[test]
fn discovery_response_decodes_standard_port() {
    // 56700 = 0xDD7C
    let r = StateServiceResponse::decode(&[0x01, 0x7C, 0xDD, 0x00, 0x00, 0xAA, 0xBB]).unwrap();
    assert_eq!(r.service, 1);
    assert_eq!(r.port, 56700);
}

#[test]
fn short_discovery_response_rejected() {
    assert_eq!(
        StateServiceResponse::decode(&[0x02, 0x34, 0x12, 0x00]),
        Err(DecodeError::TooShort)
    );
    assert_eq!(StateServiceResponse::decode(&[]), Err(DecodeError::TooShort));
}
