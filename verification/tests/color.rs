use launchpad::color::{clamp_intensity, LaunchpadColor, MAX_INTENSITY};

#[test]
fn color_constants() {
    assert_eq!(LaunchpadColor::black().red, 0)
}

#[test]
fn presets_have_one_full_channel() {
    assert_eq!(LaunchpadColor::black(), LaunchpadColor { red: 0, green: 0, blue: 0 });
    assert_eq!(LaunchpadColor::red(), LaunchpadColor { red: 127, green: 0, blue: 0 });
    assert_eq!(LaunchpadColor::green(), LaunchpadColor { red: 0, green: 127, blue: 0 });
    assert_eq!(LaunchpadColor::blue(), LaunchpadColor { red: 0, green: 0, blue: 127 });
}

#[test]
fn intensity_is_limited_to_the_device_range() {
    assert_eq!(MAX_INTENSITY, 127);
    assert_eq!(clamp_intensity(0), 0);
    assert_eq!(clamp_intensity(126), 126);
    assert_eq!(clamp_intensity(127), 127);
    assert_eq!(clamp_intensity(128), 127);
    assert_eq!(clamp_intensity(255), 127);
}

#[test]
fn new_limits_each_channel() {
    assert_eq!(LaunchpadColor::new(200, 5, 128), LaunchpadColor { red: 127, green: 5, blue: 127 });
    assert_eq!(LaunchpadColor::new(0, 87, 107), LaunchpadColor { red: 0, green: 87, blue: 107 });
}

#[test]
fn clamped_keeps_a_colour_in_range() {
    let teal = LaunchpadColor { red: 0, green: 87, blue: 107 };
    assert_eq!(teal.clamped(), teal);
    let bright = LaunchpadColor { red: 255, green: 255, blue: 255 };
    assert_eq!(bright.clamped(), LaunchpadColor { red: 127, green: 127, blue: 127 });
}
