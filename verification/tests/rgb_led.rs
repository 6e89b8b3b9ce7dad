use wlan_temp_sensor::rgb_led::{Channel, RgbLed};

#[test]
fn new_indicator_has_the_levels_given() {
    let led = RgbLed::new(true, false, true);
    assert_eq!(led, RgbLed { red: true, green: false, blue: true });
    assert!(led.level(Channel::Red));
    assert!(!led.level(Channel::Green));
    assert!(led.level(Channel::Blue));
}

#[test]
fn set_changes_one_channel_only() {
    let mut led = RgbLed::new(false, false, false);
    led.set(Channel::Green, true);
    assert_eq!(led, RgbLed { red: false, green: true, blue: false });
    led.set(Channel::Red, true);
    assert_eq!(led, RgbLed { red: true, green: true, blue: false });
    led.set(Channel::Blue, true);
    assert_eq!(led, RgbLed { red: true, green: true, blue: true });
    led.set(Channel::Green, false);
    assert_eq!(led, RgbLed { red: true, green: false, blue: true });
}

#[test]
fn setting_a_level_twice_is_setting_it_once() {
    let mut led = RgbLed::new(false, false, false);
    led.set(Channel::Blue, true);
    led.set(Channel::Blue, true);
    assert_eq!(led, RgbLed { red: false, green: false, blue: true });
}
