use krake::smart_device::{led_message, led_report, Color};

fn check_report(color: &Color, data: &[u8]) {
    assert_eq!(data.len(), 128);
    // Fixed command bytes.
    assert_eq!(data[0], 0x02);
    assert_eq!(data[1], 0x4b);
    assert_eq!(data[2], 0x00);
    assert_eq!(data[3], 0x00);
    assert_eq!(data[4], 0x02);
    // Every slot of the three zones carries the G, R, B triple.
    for zone in [(5usize, 35usize), (35, 62), (65, 68)] {
        let mut i = zone.0;
        while i + 2 < zone.1 + 1 {
            assert_eq!(data[i], color.g, "G at {}", i);
            assert_eq!(data[i + 1], color.r, "R at {}", i + 1);
            assert_eq!(data[i + 2], color.b, "B at {}", i + 2);
            i += 3;
        }
        assert_eq!(i, zone.1);
    }
    // Fixed trailer bytes and padding.
    assert_eq!(data[62], 0x00);
    assert_eq!(data[63], 0x00);
    assert_eq!(data[64], 0x03);
    for i in 68..128 {
        assert_eq!(data[i], 0x00, "padding at {}", i);
    }
}

#[test]
fn color_presets() {
    let off = Color::off();
    assert_eq!((off.r, off.g, off.b), (0x00, 0x00, 0x00));
    let white = Color::white();
    assert_eq!((white.r, white.g, white.b), (0xff, 0xff, 0xff));
    let red = Color::red();
    assert_eq!((red.r, red.g, red.b), (0xff, 0x00, 0x00));
    let green = Color::green();
    assert_eq!((green.r, green.g, green.b), (0x00, 0xff, 0x00));
    let blue = Color::blue();
    assert_eq!((blue.r, blue.g, blue.b), (0x00, 0x00, 0xff));
}

#[test]
fn report_zones_hold_every_preset() {
    for color in [
        Color::off(),
        Color::white(),
        Color::red(),
        Color::green(),
        Color::blue(),
    ] {
        let data = led_report(&color);
        check_report(&color, &data);
    }
}

#[test]
fn off_report_payload_is_all_zero() {
    let data = led_report(&Color::off());
    for (i, &byte) in data.iter().enumerate() {
        let expected = match i {
            0 => 0x02,
            1 => 0x4b,
            4 => 0x02,
            64 => 0x03,
            _ => 0x00,
        };
        assert_eq!(byte, expected, "byte {}", i);
    }
    // Turning off is not a distinct code path: the base message is the same
    // report.
    assert_eq!(data, led_message());
}

#[test]
fn red_round_trip_zone_one() {
    let data = led_report(&Color::red());
    assert_eq!((data[5], data[6], data[7]), (0x00, 0xff, 0x00));
}

#[test]
fn base_message_fixed_bytes() {
    let data = led_message();
    assert_eq!(data.len(), 128);
    assert_eq!(data[0], 0x02);
    assert_eq!(data[1], 0x4b);
    assert_eq!(data[4], 0x02);
    assert_eq!(data[64], 0x03);
    for (i, &byte) in data.iter().enumerate() {
        if i != 0 && i != 1 && i != 4 && i != 64 {
            assert_eq!(byte, 0x00, "byte {}", i);
        }
    }
}

#[test]
fn mixed_color_report() {
    let color = Color { r: 0x12, g: 0x34, b: 0x56 };
    let data = led_report(&color);
    check_report(&color, &data);
    assert_eq!((data[35], data[36], data[37]), (0x34, 0x12, 0x56));
    assert_eq!((data[65], data[66], data[67]), (0x34, 0x12, 0x56));
}
