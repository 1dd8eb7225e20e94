use manymouser::drivers::linux_evdev::classify_device;
use manymouser::drivers::linux_evdev::is_evdev_node;
use manymouser::drivers::linux_evdev::make_name_buffer;
use manymouser::drivers::linux_evdev::placeholder_name;
use manymouser::drivers::linux_evdev::test_bit;
use manymouser::drivers::linux_evdev::MouseClass;

// Builds a capability bitmap of the given byte length with the given bits set.
fn caps(len: usize, bits: &[u16]) -> Vec<u8> {
    let mut v = vec![0u8; len];
    for &b in bits {
        v[b as usize / 8] |= 1 << (b % 8);
    }
    v
}

const BTN_MOUSE: u16 = 0x110;
const BTN_TOUCH: u16 = 0x14a;

#[test]
fn test_bit_reads_the_addressed_bit() {
    let v = caps(96, &[BTN_MOUSE]);
    assert_ne!(test_bit(&v, BTN_MOUSE), 0);
    assert_eq!(test_bit(&v, BTN_MOUSE + 1), 0);
    assert_eq!(test_bit(&v, BTN_TOUCH), 0);
}

#[test]
fn relative_axes_with_mouse_button_classify_as_relative_mouse() {
    let keycaps = caps(96, &[BTN_MOUSE]);
    let relcaps = caps(2, &[0, 1]);
    let abscaps = caps(8, &[]);
    let c = classify_device(&keycaps, Some(&relcaps), Some(&abscaps));
    assert_eq!(c, MouseClass::RelativeMouse);
}

#[test]
fn absolute_axes_with_touch_button_classify_as_absolute_pointer() {
    let keycaps = caps(96, &[BTN_TOUCH]);
    let relcaps = caps(2, &[]);
    let abscaps = caps(8, &[0, 1]);
    let c = classify_device(&keycaps, Some(&relcaps), Some(&abscaps));
    assert_eq!(c, MouseClass::AbsolutePointer);
}

#[test]
fn relative_axes_without_mouse_button_do_not_classify() {
    // both relative axes present but no mouse button, no touch
    let keycaps = caps(96, &[]);
    let relcaps = caps(2, &[0, 1]);
    let abscaps = caps(8, &[]);
    let c = classify_device(&keycaps, Some(&relcaps), Some(&abscaps));
    assert_eq!(c, MouseClass::NotMouse);
}

#[test]
fn one_relative_axis_alone_does_not_classify() {
    let keycaps = caps(96, &[BTN_MOUSE]);
    let relcaps = caps(2, &[0]);
    let c = classify_device(&keycaps, Some(&relcaps), None);
    assert_eq!(c, MouseClass::NotMouse);
}

#[test]
fn absolute_axes_without_touch_button_do_not_classify() {
    let keycaps = caps(96, &[BTN_MOUSE]);
    let relcaps = caps(2, &[]);
    let abscaps = caps(8, &[0, 1]);
    let c = classify_device(&keycaps, Some(&relcaps), Some(&abscaps));
    assert_eq!(c, MouseClass::NotMouse);
}

#[test]
fn failed_relative_query_forecloses_the_relative_rule() {
    // the same bitmaps would classify as relative were the query answered
    let keycaps = caps(96, &[BTN_MOUSE, BTN_TOUCH]);
    let abscaps = caps(8, &[0, 1]);
    let c = classify_device(&keycaps, None, Some(&abscaps));
    assert_eq!(c, MouseClass::AbsolutePointer);
    let c2 = classify_device(&keycaps, None, None);
    assert_eq!(c2, MouseClass::NotMouse);
}

#[test]
fn relative_rule_wins_over_absolute_rule() {
    let keycaps = caps(96, &[BTN_MOUSE, BTN_TOUCH]);
    let relcaps = caps(2, &[0, 1]);
    let abscaps = caps(8, &[0, 1]);
    let c = classify_device(&keycaps, Some(&relcaps), Some(&abscaps));
    assert_eq!(c, MouseClass::RelativeMouse);
}

const MODE_CHR: u32 = 0o020000;
const MODE_REG: u32 = 0o100000;

fn rdev(major: u64, minor: u64) -> u64 {
    (major << 8) | minor
}

#[test]
fn input_subsystem_character_device_is_a_candidate() {
    assert!(is_evdev_node(MODE_CHR | 0o600, rdev(13, 64)));
    assert!(is_evdev_node(MODE_CHR, rdev(13, 80)));
    assert!(is_evdev_node(MODE_CHR, rdev(13, 96)));
}

#[test]
fn wrong_major_is_never_a_candidate() {
    // device numbers with major 8: never opened, never registered
    assert!(!is_evdev_node(MODE_CHR | 0o600, rdev(8, 64)));
    assert!(!is_evdev_node(MODE_CHR, rdev(8, 80)));
}

#[test]
fn minor_outside_the_input_range_is_not_a_candidate() {
    assert!(!is_evdev_node(MODE_CHR, rdev(13, 63)));
    assert!(!is_evdev_node(MODE_CHR, rdev(13, 97)));
    assert!(!is_evdev_node(MODE_CHR, rdev(13, 0)));
}

#[test]
fn non_character_device_is_not_a_candidate() {
    assert!(!is_evdev_node(MODE_REG | 0o644, rdev(13, 64)));
    assert!(!is_evdev_node(0, rdev(13, 64)));
}

#[test]
fn name_buffer_is_exactly_sixty_four_bytes_nul_padded() {
    let src = b"trackball".to_vec();
    let buf = make_name_buffer(&src);
    assert_eq!(buf.len(), 64);
    assert_eq!(&buf[..9], b"trackball");
    assert!(buf[9..].iter().all(|&b| b == 0));
}

#[test]
fn long_name_is_truncated_not_overflowed() {
    let src = vec![b'x'; 100];
    let buf = make_name_buffer(&src);
    assert_eq!(buf.len(), 64);
    assert!(buf[..63].iter().all(|&b| b == b'x'));
    // the final byte stays NUL, so the buffer remains a valid C string
    assert_eq!(buf[63], 0);
}

#[test]
fn empty_name_gives_an_all_nul_buffer() {
    let buf = make_name_buffer(&Vec::new());
    assert_eq!(buf.len(), 64);
    assert!(buf.iter().all(|&b| b == 0));
}

#[test]
fn placeholder_name_is_the_fixed_substitute() {
    let buf = placeholder_name();
    assert_eq!(buf.len(), 64);
    assert_eq!(&buf[..13], b"unknowndevice");
    assert!(buf[13..].iter().all(|&b| b == 0));
}
