use pisugar::model::Model;
use pisugar::tap::{battery_events, gpio_detect_tap, push_tap_sample, tap_of_register, BatteryEvent, TapType};

#[test]
fn taps_detected() {
    let mut h = "0001000".to_string();
    assert_eq!(gpio_detect_tap(&mut h), Some(TapType::Single));
    assert_eq!(h, "");
    let mut h = "000101000".to_string();
    assert_eq!(gpio_detect_tap(&mut h), Some(TapType::Double));
    let mut h = "01111111100".to_string();
    assert_eq!(gpio_detect_tap(&mut h), Some(TapType::Long));
    let mut h = "0000011".to_string();
    assert_eq!(gpio_detect_tap(&mut h), None);
    assert_eq!(h, "0000011");
}

#[test]
fn tap_history_is_bounded() {
    let mut h = String::new();
    for i in 0..40 {
        push_tap_sample(&mut h, i % 3 == 0);
        assert!(h.len() <= 30);
    }
    assert_eq!(h.len(), 30);
    assert!(h.ends_with('1'));
}

#[test]
fn tap_registers_and_events() {
    assert_eq!(tap_of_register(1), Some(TapType::Single));
    assert_eq!(tap_of_register(2), Some(TapType::Double));
    assert_eq!(tap_of_register(3), Some(TapType::Long));
    assert_eq!(tap_of_register(0), None);
    assert_eq!(
        battery_events(Some(TapType::Long), true),
        vec![BatteryEvent::TapEvent(TapType::Long), BatteryEvent::SoftPowerOff]
    );
    assert_eq!(battery_events(None, false), vec![]);
    assert_eq!(TapType::Double.to_string(), "double");
}

#[test]
fn model_names() {
    assert_eq!(Model::PiSugar_2_Pro.to_string(), "PiSugar 2 Pro");
    assert_eq!(Model::from_str("PiSugar 3"), Ok(Model::PiSugar_3));
    assert_eq!(Model::from_str("PiSugar 4"), Err(()));
    for m in Model::value_variants() {
        assert_eq!(Model::from_str(&m.to_string()), Ok(m));
    }
    assert_eq!(Model::PiSugar_2_2LEDs.led_amount(), 2);
    assert_eq!(Model::PiSugar_2_4LEDs.led_amount(), 4);
    assert_eq!(Model::PiSugar_3.default_battery_i2c_addr(), 0x57);
    assert_eq!(Model::PiSugar_2_Pro.default_battery_i2c_addr(), 0x75);
    assert_eq!(Model::PiSugar_2_Pro.default_rtc_i2c_addr(), 0x32);
}
