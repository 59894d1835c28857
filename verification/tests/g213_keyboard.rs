use g213_colours::g213_keyboard::{
    breathe_command, colour_command, cycle_command, is_g213_keyboard, limit_speed,
    G213DeviceDescriptor, KeyboardRegions, MIN_SPEED,
};

struct GoodG213DeviceDescriptor {}
struct NonLogitechDeviceDescriptor {}
struct NonG213DeviceDescriptor {}

impl G213DeviceDescriptor for GoodG213DeviceDescriptor {
    fn vendor_id(&self) -> u16 {
        0x046d
    }

    fn product_id(&self) -> u16 {
        0xc336
    }
}

impl G213DeviceDescriptor for NonLogitechDeviceDescriptor {
    fn vendor_id(&self) -> u16 {
        0x0400
    }

    fn product_id(&self) -> u16 {
        0xc336
    }
}

impl G213DeviceDescriptor for NonG213DeviceDescriptor {
    fn vendor_id(&self) -> u16 {
        0x046d
    }

    fn product_id(&self) -> u16 {
        0x1234
    }
}

#[test]
fn a_g213_keyboard() {
    let descriptor = GoodG213DeviceDescriptor {};

    assert_eq!(is_g213_keyboard(&descriptor), true);
}

#[test]
fn not_a_logitech_device() {
    let descriptor = NonLogitechDeviceDescriptor {};

    assert_eq!(is_g213_keyboard(&descriptor), false);
}

#[test]
fn not_a_g213_keyboard() {
    let descriptor = NonG213DeviceDescriptor {};

    assert_eq!(is_g213_keyboard(&descriptor), false);
}

#[test]
fn speed_below_minimum_is_clamped() {
    assert_eq!(limit_speed(0), MIN_SPEED);
    assert_eq!(limit_speed(31), MIN_SPEED);
}

#[test]
fn speed_at_or_above_minimum_passes() {
    assert_eq!(limit_speed(32), 32);
    assert_eq!(limit_speed(1000), 1000);
    assert_eq!(limit_speed(65535), 65535);
}

#[test]
fn region_index_in_range() {
    assert_eq!(KeyboardRegions::from(0u8), KeyboardRegions::WholeKeyboard);
    assert_eq!(KeyboardRegions::from(3u8), KeyboardRegions::Region3);
    assert_eq!(KeyboardRegions::from(5u8), KeyboardRegions::Region5);
}

#[test]
fn region_index_out_of_range_clamps_to_whole_keyboard() {
    assert_eq!(KeyboardRegions::from(6u8), KeyboardRegions::WholeKeyboard);
    assert_eq!(KeyboardRegions::from(255u8), KeyboardRegions::from(0u8));
}

#[test]
fn region_values() {
    assert_eq!(KeyboardRegions::WholeKeyboard.value(), 0);
    assert_eq!(KeyboardRegions::Region5.value(), 5);
}

#[test]
fn colour_command_bytes() {
    let cmd = colour_command(0, 0xff0000);

    assert_eq!(cmd, "11ff0c3a0001ff00000200000000000000000000");
    assert_eq!(cmd.len(), 40);
}

#[test]
fn region_colour_command_bytes() {
    let cmd = colour_command(2, 0xf0f8ff);

    assert_eq!(cmd, "11ff0c3a0201f0f8ff0200000000000000000000");
}

#[test]
fn breathe_command_bytes() {
    let cmd = breathe_command(1000, 0x00ff00);

    assert_eq!(cmd, "11ff0c3a000200ff0003e8006400000000000000");
    assert_eq!(cmd.len(), 40);
}

#[test]
fn cycle_command_bytes() {
    let cmd = cycle_command(1000);

    assert_eq!(cmd, "11ff0c3a0003ffffff000003e864000000000000");
    assert_eq!(cmd.len(), 40);
}
