use rog_mouse::error::InputError;
use rog_mouse::requests::confirm::RogConfirm;
use rog_mouse::requests::get_dpi_data::GetDpiData;
use rog_mouse::requests::get_leds::GetLeds;
use rog_mouse::requests::get_power_data::GetPowerData;
use rog_mouse::requests::get_profile_and_firmware_v::GetProfileAndFirmwareV;
use rog_mouse::requests::set_active_profile::SetActiveProfile;
use rog_mouse::requests::set_light_mode::build_light_request;
use rog_mouse::requests::set_light_mode::LedBrightness;
use rog_mouse::requests::set_light_mode::LedData;
use rog_mouse::requests::set_light_mode::LedType;
use rog_mouse::requests::set_light_mode::LightMode;
use rog_mouse::requests::set_light_mode::SetLightModeRequest;

fn assert_zero_except(buf: &[u8; 64], used: &[usize]) {
    for i in 0..64 {
        if !used.contains(&i) {
            assert_eq!(buf[i], 0, "byte {i} should be zero");
        }
    }
}

#[test]
fn header_only_requests() {
    let buf = GetProfileAndFirmwareV.as_byte_vec();
    assert_eq!((buf[0], buf[1]), (0x12, 0x00));
    assert_zero_except(&buf, &[0, 1]);

    let buf = GetPowerData.as_byte_vec();
    assert_eq!((buf[0], buf[1]), (0x12, 0x07));
    assert_zero_except(&buf, &[0, 1]);

    let buf = GetDpiData.as_byte_vec();
    assert_eq!((buf[0], buf[1]), (0x12, 0x04));
    assert_zero_except(&buf, &[0, 1]);

    let buf = GetLeds.as_byte_vec();
    assert_eq!((buf[0], buf[1]), (0x12, 0x03));
    assert_zero_except(&buf, &[0, 1]);

    let buf = RogConfirm.as_byte_vec();
    assert_eq!((buf[0], buf[1]), (0x50, 0x03));
    assert_zero_except(&buf, &[0, 1]);
}

#[test]
fn set_active_profile_places_every_valid_index() {
    for profile in 0u8..=2 {
        let request = SetActiveProfile::new(profile).expect("index in range");
        let buf = request.as_byte_vec();
        assert_eq!(buf[0], 0x50);
        assert_eq!(buf[1], 0x02);
        assert_eq!(buf[2], profile);
        assert_zero_except(&buf, &[0, 1, 2]);
    }
}

#[test]
fn set_active_profile_rejects_out_of_range_index() {
    assert_eq!(
        SetActiveProfile::new(3),
        Err(InputError::InvalidProfile(3))
    );
    assert_eq!(
        SetActiveProfile::new(255),
        Err(InputError::InvalidProfile(255))
    );
}

#[test]
fn set_light_mode_frame_layout() {
    let data = LedData {
        led_type: LedType::Wheel,
        light_mode: LightMode::Wave,
        brightness: LedBrightness::Percent75,
        r: 0xaa,
        g: 0xbb,
        b: 0xcc,
    };
    let buf = SetLightModeRequest(data).as_byte_vec();
    assert_eq!(buf[0], 0x51);
    assert_eq!(buf[1], 0x28);
    assert_eq!(buf[2], 1); // wheel
    assert_eq!(buf[4], 3); // wave
    assert_eq!(buf[5], 3); // 75%
    assert_eq!(buf[6], 0xaa);
    assert_eq!(buf[7], 0xbb);
    assert_eq!(buf[8], 0xcc);
    assert_zero_except(&buf, &[0, 1, 2, 4, 5, 6, 7, 8]);
}

#[test]
fn light_frame_round_trips_through_the_byte_maps() {
    let original = LedData {
        led_type: LedType::Bottom,
        light_mode: LightMode::Reactive,
        brightness: LedBrightness::Percent25,
        r: 1,
        g: 2,
        b: 3,
    };
    let buf = SetLightModeRequest::from(original).as_byte_vec();
    assert_eq!((buf[0], buf[1]), (0x51, 0x28));
    let recovered = LedData {
        led_type: LedType::from_byte(buf[2]).expect("position byte decodes"),
        light_mode: LightMode::from_byte(buf[4]).expect("pattern byte decodes"),
        brightness: LedBrightness::from_byte(buf[5]).expect("brightness byte decodes"),
        r: buf[6],
        g: buf[7],
        b: buf[8],
    };
    assert_eq!(recovered, original);
}

#[test]
fn build_light_request_parses_color_and_brightness() {
    let request = build_light_request(LedType::Logo, LightMode::Breathing, 50, b"FF8000")
        .expect("valid input");
    assert_eq!(request.0.led_type, LedType::Logo);
    assert_eq!(request.0.light_mode, LightMode::Breathing);
    assert_eq!(request.0.brightness, LedBrightness::Percent50);
    assert_eq!((request.0.r, request.0.g, request.0.b), (0xff, 0x80, 0x00));
}

#[test]
fn build_light_request_rejects_bad_input() {
    assert_eq!(
        build_light_request(LedType::Logo, LightMode::Default, 0, b"FF80"),
        Err(InputError::InvalidColor)
    );
    assert_eq!(
        build_light_request(LedType::Logo, LightMode::Default, 0, b"GG0000"),
        Err(InputError::InvalidColor)
    );
    assert_eq!(
        build_light_request(LedType::Logo, LightMode::Default, 30, b"FF8000"),
        Err(InputError::InvalidBrightness(30))
    );
}
