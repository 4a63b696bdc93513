use openpelta::hid::pelta::{
    data_byte, data_flag, decode_firmware_version, decode_power_info, demo_mode_frame,
    is_command_interface, latency_mode_frame, led_color_frame, light_effect_frame,
    noise_reduction_frame, select_interface, HidInterface,
};
use openpelta::hid::protocol::{
    build_frame, response_payload, FRAME_LEN, OP_GET_FW_VERSION, OP_GET_HEADSET_EXIST,
    OP_GET_NR_ON_OFF, OP_SET_SW_LED_COLOR, REPORT_CMD,
};
use openpelta::hid::{rgb_request, DeviceError, Rgb, RgbMode, RgbRequest};

fn payload_with(data: &[u8]) -> Vec<u8> {
    let mut p = vec![0u8; 64];
    for (i, b) in data.iter().enumerate() {
        p[i] = *b;
    }
    p
}

#[test]
fn led_color_frame_matches_worked_example() {
    let f = led_color_frame(Rgb { r: 0xFF, g: 0, b: 0 });
    assert_eq!(f.len(), 65);
    assert_eq!(&f[..8], &[0xCC, 0x51, 0x30, 0x00, 0x00, 0xFF, 0x00, 0x00]);
    assert!(f[8..].iter().all(|b| *b == 0));
    let white = led_color_frame(Rgb { r: 0xFF, g: 0xFF, b: 0xFF });
    assert_eq!(&white[..8], &[0xCC, 0x51, 0x30, 0x00, 0x00, 0xFF, 0xFF, 0xFF]);
}

#[test]
fn get_frame_is_opcode_and_zeros() {
    let f = build_frame(&OP_GET_FW_VERSION, &[]);
    assert_eq!(f.len(), FRAME_LEN);
    assert_eq!(f[0], REPORT_CMD);
    assert_eq!(&f[1..3], &[0x12, 0x00]);
    assert!(f[3..].iter().all(|b| *b == 0));
    let h = build_frame(&OP_GET_HEADSET_EXIST, &[]);
    assert_eq!(&h[..5], &[0xCC, 0x12, 0x00, 0x00, 0x01]);
}

#[test]
fn params_start_at_payload_byte_four() {
    let f = build_frame(&[0x51, 0x31], &[7, 8]);
    assert_eq!(&f[..8], &[0xCC, 0x51, 0x31, 0, 0, 7, 8, 0]);
}

#[test]
fn echoed_request_is_accepted() {
    let f = build_frame(&OP_GET_NR_ON_OFF, &[]);
    let p = response_payload(&f, &OP_GET_NR_ON_OFF).unwrap();
    assert_eq!(p.len(), 64);
    assert_eq!(&p[..], &f[1..]);
}

#[test]
fn reply_to_other_opcode_or_report_is_rejected() {
    let mut r = build_frame(&[0x12, 0x07], &[5, 0x52, 0x14, 1]);
    assert!(response_payload(&r, &[0x12, 0x08]).is_none());
    r[0] = 0x3A;
    assert!(response_payload(&r, &[0x12, 0x07]).is_none());
}

#[test]
fn light_effect_modes_one_to_four_only() {
    let c = Rgb { r: 0, g: 0xFF, b: 0xFF };
    let f = light_effect_frame(2, 0x32, c).unwrap();
    assert_eq!(&f[..10], &[0xCC, 0x51, 0x28, 0, 0, 2, 0x32, 0, 0xFF, 0xFF]);
    for m in [1u8, 3, 4] {
        assert!(light_effect_frame(m, 0, c).is_ok());
    }
    for m in [0u8, 5, 255] {
        match light_effect_frame(m, 0, c) {
            Err(DeviceError::InvalidLightEffectMode(x)) => assert_eq!(x, m),
            other => panic!("unexpected {:?}", other),
        }
    }
}

#[test]
fn latency_presets_only() {
    let f = latency_mode_frame(40).unwrap();
    assert_eq!(&f[..6], &[0xCC, 0x51, 0x52, 0, 0, 40]);
    for v in [60u8, 80, 100] {
        assert!(latency_mode_frame(v).is_ok());
    }
    match latency_mode_frame(50) {
        Err(e) => assert_eq!(e.message(), "invalid latency value 50; valid: [40, 60, 80, 100]"),
        Ok(_) => panic!("50 ms is not a preset"),
    }
}

#[test]
fn boolean_setters() {
    assert_eq!(&noise_reduction_frame(true)[..6], &[0xCC, 0x41, 0x02, 0, 0, 1]);
    assert_eq!(&noise_reduction_frame(false)[..6], &[0xCC, 0x41, 0x02, 0, 0, 0]);
    assert_eq!(&demo_mode_frame(true)[..6], &[0xCC, 0x51, 0x31, 0, 0, 1]);
}

#[test]
fn error_messages() {
    assert_eq!(
        DeviceError::InvalidLightEffectMode(7).message(),
        "invalid light-effect mode 7; valid: [1, 2, 3, 4]"
    );
    assert_eq!(
        DeviceError::NoMatchingResponse(vec![0x12, 0x00]).message(),
        "no matching response for opcode [12, 00]"
    );
    assert_eq!(
        DeviceError::NoMatchingResponse(vec![0xab, 0x0c, 0x00, 0x01]).message(),
        "no matching response for opcode [ab, 0c, 00, 01]"
    );
    assert_eq!(DeviceError::InterfaceNotFound.message(), "Pelta vendor interface not found");
    assert_eq!(DeviceError::Transport("hid gone".to_string()).message(), "hid gone");
}

#[test]
fn firmware_version_text() {
    let p = payload_with(&[0x12, 0x00, 0, 0, 0x03, 0x00, 0x04, 0x00, 0x03, 0x00, 0x04, 0x00]);
    assert_eq!(decode_firmware_version(&p), "03.00.04.00 (hw 03.00.04.00)");
    let q = payload_with(&[0x12, 0x00, 0, 0, 0x01, 0x0A, 0xB2, 0xFF, 0x10, 0x20, 0x3C, 0x4D]);
    assert_eq!(decode_firmware_version(&q), "10.20.3C.4D (hw 01.0A.B2.FF)");
}

#[test]
fn power_info_decoding() {
    let power = payload_with(&[0x12, 0x07, 0, 0, 0x05, 0x52, 0x14, 0x01]);
    let charging = payload_with(&[0x12, 0x08, 0, 0, 0x00]);
    let info = decode_power_info(&power, &charging);
    assert_eq!(info.percent, 82);
    assert!(!info.charging);
    assert_eq!(info.raw, [0x05, 0x52, 0x14, 0x01]);
    let charging_on = payload_with(&[0x12, 0x08, 0, 0, 0x01]);
    assert!(decode_power_info(&power, &charging_on).charging);
}

#[test]
fn data_byte_and_flag() {
    let p = payload_with(&[0x12, 0x52, 0, 0, 0x64]);
    assert_eq!(data_byte(&p), 100);
    assert!(data_flag(&p));
    let q = payload_with(&[0x12, 0x24, 0, 0, 0x00]);
    assert!(!data_flag(&q));
}

#[test]
fn interface_selection() {
    let wired = HidInterface { vendor_id: 0x0b05, product_id: 0x1b82, usage_page: 0xff00 };
    let consumer = HidInterface { vendor_id: 0x0b05, product_id: 0x1b84, usage_page: 0x000c };
    let wireless = HidInterface { vendor_id: 0x0b05, product_id: 0x1b84, usage_page: 0xff00 };
    let bluetooth = HidInterface { vendor_id: 0x0b05, product_id: 0x1b86, usage_page: 0xff00 };
    let other = HidInterface { vendor_id: 0x1234, product_id: 0x1b84, usage_page: 0xff00 };
    assert!(is_command_interface(&wired));
    assert!(!is_command_interface(&consumer));
    assert!(!is_command_interface(&bluetooth));
    assert!(!is_command_interface(&other));
    assert_eq!(select_interface(&[consumer, other, wireless, wired]).unwrap(), 2);
    assert!(matches!(
        select_interface(&[consumer, bluetooth]),
        Err(DeviceError::InterfaceNotFound)
    ));
    assert!(select_interface(&[]).is_err());
}

#[test]
fn rgb_dispatch_table() {
    let c = Rgb { r: 1, g: 2, b: 3 };
    assert_eq!(rgb_request(RgbMode::Off, c, 9), RgbRequest::LedColor(Rgb { r: 0, g: 0, b: 0 }));
    assert_eq!(rgb_request(RgbMode::Static, c, 9), RgbRequest::LedColor(c));
    assert_eq!(
        rgb_request(RgbMode::Breathing, c, 9),
        RgbRequest::LightEffect { mode: 2, intensity: 9, color: c }
    );
    assert_eq!(
        rgb_request(RgbMode::Strobe, c, 9),
        RgbRequest::LightEffect { mode: 3, intensity: 9, color: c }
    );
    assert_eq!(
        rgb_request(RgbMode::Rainbow, c, 9),
        RgbRequest::LightEffect { mode: 4, intensity: 9, color: c }
    );
    assert_eq!(&led_color_frame(Rgb::off())[5..8], &[0, 0, 0]);
    let _ = OP_SET_SW_LED_COLOR;
}
