use console_core::controls::{harvest, noise_bit, reset_selected, Controls};
use console_core::randy::Randy;

fn idle() -> Controls {
    Controls { left: false, right: false, down: false, cw_rotate: false, ccw_rotate: false }
}

#[test]
fn new_controls_ask_for_nothing() {
    assert_eq!(Controls::new(), idle());
}

#[test]
fn joystick_left_and_right_thresholds() {
    for (reading, left, right) in [
        (0u32, true, false),
        (49, true, false),
        (50, false, false),
        (2048, false, false),
        (4000, false, false),
        (4001, false, true),
        (4095, false, true),
    ] {
        let mut controls = Controls::new();
        controls.update(Some(reading), None, 0xC0);
        assert_eq!(controls, Controls { left, right, ..idle() });
    }
}

#[test]
fn joystick_down_threshold() {
    for (reading, down) in [(0u32, true), (9, true), (10, false), (4095, false)] {
        let mut controls = Controls::new();
        controls.update(None, Some(reading), 0xC0);
        assert_eq!(controls, Controls { down, ..idle() });
    }
}

#[test]
fn axis_without_a_sample_keeps_its_state() {
    let mut controls = Controls::new();
    controls.update(Some(10), Some(3), 0xC0);
    assert_eq!(controls, Controls { left: true, down: true, ..idle() });
    controls.update(None, None, 0xC0);
    assert_eq!(controls, Controls { left: true, down: true, ..idle() });
    controls.update(Some(4050), None, 0xC0);
    assert_eq!(controls, Controls { right: true, down: true, ..idle() });
    controls.update(None, Some(500), 0xC0);
    assert_eq!(controls, Controls { right: true, ..idle() });
    controls.update(Some(2000), None, 0xC0);
    assert_eq!(controls, idle());
}

#[test]
fn buttons_read_low_when_pressed() {
    let mut controls = Controls::new();
    controls.update(None, None, 0x00);
    assert_eq!(controls, Controls { cw_rotate: true, ccw_rotate: true, ..idle() });
    controls.update(None, None, 0x80);
    assert_eq!(controls, Controls { cw_rotate: true, ..idle() });
    controls.update(None, None, 0x40);
    assert_eq!(controls, Controls { ccw_rotate: true, ..idle() });
    controls.update(None, None, 0xC0);
    assert_eq!(controls, idle());
    controls.update(None, None, 0xFFFF_FF3F);
    assert_eq!(controls, Controls { cw_rotate: true, ccw_rotate: true, ..idle() });
}

#[test]
fn reset_button_reads_low_when_pressed() {
    assert!(reset_selected(0x00));
    assert!(reset_selected(0xEF));
    assert!(!reset_selected(0x10));
    assert!(!reset_selected(0xFF));
}

#[test]
fn noise_bit_is_the_parity_of_the_lowest_bits() {
    assert_eq!(noise_bit(0, 0), 0);
    assert_eq!(noise_bit(1, 0), 1);
    assert_eq!(noise_bit(0, 1), 1);
    assert_eq!(noise_bit(1, 1), 0);
    assert_eq!(noise_bit(4095, 2048), 1);
    assert_eq!(noise_bit(2, 4), 0);
    assert_eq!(noise_bit(u32::MAX, u32::MAX - 1), 1);
}

#[test]
fn harvest_needs_both_axes() {
    let mut rng = Randy::new();
    // 1, 1, 0 spells six; frames that lack a sample add nothing
    harvest(&mut rng, Some(1), Some(0));
    harvest(&mut rng, Some(1), None);
    harvest(&mut rng, None, Some(1));
    harvest(&mut rng, None, None);
    harvest(&mut rng, Some(2), Some(5));
    assert_eq!(rng.nums_available(), 0);
    harvest(&mut rng, Some(7), Some(9));
    assert_eq!(rng.nums_available(), 1);
    assert_eq!(rng.next(), 6);
}
