use rog_mouse::requests::get_power_data::SleepModeIdle;
use rog_mouse::requests::set_light_mode::LedBrightness;
use rog_mouse::requests::set_light_mode::LedType;
use rog_mouse::requests::set_light_mode::LightMode;

#[test]
fn brightness_percent_round_trip() {
    assert_eq!(LedBrightness::from_percent(0).as_percent(), 0);
    assert_eq!(LedBrightness::from_percent(25).as_percent(), 25);
    assert_eq!(LedBrightness::from_percent(50).as_percent(), 50);
    assert_eq!(LedBrightness::from_percent(75).as_percent(), 75);
    assert_eq!(LedBrightness::from_percent(100).as_percent(), 100);
}

#[test]
fn brightness_rejects_percent_off_the_scale() {
    assert_eq!(LedBrightness::try_from_percent(30), None);
    assert_eq!(LedBrightness::try_from_percent(1), None);
    assert_eq!(LedBrightness::try_from_percent(101), None);
    assert_eq!(
        LedBrightness::try_from_percent(75),
        Some(LedBrightness::Percent75)
    );
}

#[test]
fn brightness_byte_map() {
    assert_eq!(LedBrightness::Percent0.as_byte(), 0);
    assert_eq!(LedBrightness::Percent100.as_byte(), 4);
    assert_eq!(LedBrightness::from_byte(2), Some(LedBrightness::Percent50));
    assert_eq!(LedBrightness::from_byte(5), None);
    assert_eq!(LedBrightness::from_byte(255), None);
}

#[test]
fn led_type_byte_map() {
    assert_eq!(LedType::Logo.as_byte(), 0);
    assert_eq!(LedType::Wheel.as_byte(), 1);
    assert_eq!(LedType::Bottom.as_byte(), 2);
    assert_eq!(LedType::All.as_byte(), 3);
    assert_eq!(LedType::from_byte(3), Some(LedType::All));
    assert_eq!(LedType::from_byte(4), None);
}

#[test]
fn light_mode_byte_map() {
    assert_eq!(LightMode::Default.as_byte(), 0);
    assert_eq!(LightMode::Battery.as_byte(), 6);
    assert_eq!(LightMode::from_byte(1), Some(LightMode::Breathing));
    assert_eq!(LightMode::from_byte(6), Some(LightMode::Battery));
    assert_eq!(LightMode::from_byte(7), None);
}

#[test]
fn sleep_mode_byte_map() {
    assert_eq!(SleepModeIdle::from_byte(0), Some(SleepModeIdle::Minute1));
    assert_eq!(SleepModeIdle::from_byte(4), Some(SleepModeIdle::Minute10));
    assert_eq!(SleepModeIdle::from_byte(255), Some(SleepModeIdle::NoSleep));
    assert_eq!(SleepModeIdle::from_byte(5), None);
    assert_eq!(SleepModeIdle::from_byte(254), None);
    assert_eq!(SleepModeIdle::Minute5.as_byte(), 3);
    assert_eq!(SleepModeIdle::NoSleep.as_byte(), 255);
}

#[test]
fn sleep_mode_labels() {
    assert_eq!(SleepModeIdle::Minute1.label(), "1 minute");
    assert_eq!(SleepModeIdle::Minute2.label(), "2 minutes");
    assert_eq!(SleepModeIdle::Minute3.label(), "3 minutes");
    assert_eq!(SleepModeIdle::Minute5.label(), "5 minutes");
    assert_eq!(SleepModeIdle::Minute10.label(), "10 minutes");
    assert_eq!(SleepModeIdle::NoSleep.label(), "Off");
}
