use console_core::bus::BusOp;
use console_core::bus::BusOp::{
    AwaitIdle, CommandMode, DataMode, Deselect, ReleaseReset, Select, Settle, Write,
};
use console_core::lcd::{Lcd, LcdCommand};

fn command(opcode: u8) -> Vec<BusOp> {
    vec![AwaitIdle, CommandMode, Select, Write(opcode), AwaitIdle, Deselect]
}

fn data(bytes: &[u8]) -> Vec<BusOp> {
    let mut ops = vec![AwaitIdle];
    for &byte in bytes {
        ops.extend([DataMode, Select, Write(byte), AwaitIdle, Deselect]);
    }
    ops
}

fn join(parts: &[Vec<BusOp>]) -> Vec<BusOp> {
    parts.concat()
}

#[test]
fn new_driver_has_recorded_nothing() {
    let mut lcd = Lcd::new();
    assert_eq!(lcd.take_pending(), vec![]);
}

#[test]
fn opcodes_match_the_controller() {
    assert_eq!(LcdCommand::SWRESET.opcode(), 0x01);
    assert_eq!(LcdCommand::SLPOUT.opcode(), 0x11);
    assert_eq!(LcdCommand::NORON.opcode(), 0x13);
    assert_eq!(LcdCommand::INVOFF.opcode(), 0x20);
    assert_eq!(LcdCommand::DISPON.opcode(), 0x29);
    assert_eq!(LcdCommand::CASET.opcode(), 0x2A);
    assert_eq!(LcdCommand::RASET.opcode(), 0x2B);
    assert_eq!(LcdCommand::RAMWR.opcode(), 0x2C);
    assert_eq!(LcdCommand::MADCTL.opcode(), 0x36);
    assert_eq!(LcdCommand::COLMOD.opcode(), 0x3A);
    assert_eq!(LcdCommand::FRMCTR1.opcode(), 0xB1);
    assert_eq!(LcdCommand::FRMCTR2.opcode(), 0xB2);
    assert_eq!(LcdCommand::FRMCTR3.opcode(), 0xB3);
    assert_eq!(LcdCommand::INVCTR.opcode(), 0xB4);
    assert_eq!(LcdCommand::PWCTR1.opcode(), 0xC0);
    assert_eq!(LcdCommand::PWCTR2.opcode(), 0xC1);
    assert_eq!(LcdCommand::PWCTR3.opcode(), 0xC2);
    assert_eq!(LcdCommand::PWCTR4.opcode(), 0xC3);
    assert_eq!(LcdCommand::PWCTR5.opcode(), 0xC4);
    assert_eq!(LcdCommand::VMCTR1.opcode(), 0xC5);
    assert_eq!(LcdCommand::GMCTRP1.opcode(), 0xE0);
    assert_eq!(LcdCommand::GMCTRN1.opcode(), 0xE1);
}

#[test]
fn init_follows_the_power_up_sequence() {
    let mut lcd = Lcd::new();
    lcd.init();
    let expected = join(&[
        vec![ReleaseReset, Deselect, Settle],
        command(0x11),
        vec![Settle],
        command(0x3A),
        data(&[3]),
        command(0x36),
        data(&[0xC8]),
    ]);
    assert_eq!(lcd.take_pending(), expected);
}

#[test]
fn display_on_sends_the_command_then_settles() {
    let mut lcd = Lcd::new();
    lcd.display_on();
    assert_eq!(lcd.take_pending(), join(&[command(0x29), vec![Settle]]));
}

#[test]
fn window_is_shifted_by_the_margin() {
    let mut lcd = Lcd::new();
    lcd.set_drawing_area(10, 20, 30, 40);
    let expected = join(&[
        command(0x2A),
        data(&[0, 12, 0, 41]),
        command(0x2B),
        data(&[0, 23, 0, 62]),
    ]);
    assert_eq!(lcd.take_pending(), expected);
}

#[test]
fn whole_panel_window() {
    let mut lcd = Lcd::new();
    assert!(Lcd::fits_panel(0, 0, 128, 128));
    lcd.set_drawing_area(0, 0, 128, 128);
    let expected = join(&[
        command(0x2A),
        data(&[0, 2, 0, 129]),
        command(0x2B),
        data(&[0, 3, 0, 130]),
    ]);
    assert_eq!(lcd.take_pending(), expected);
}

#[test]
fn single_pixel_window_in_the_far_corner() {
    let mut lcd = Lcd::new();
    assert!(Lcd::fits_panel(127, 127, 1, 1));
    lcd.set_drawing_area(127, 127, 1, 1);
    let expected = join(&[
        command(0x2A),
        data(&[0, 129, 0, 129]),
        command(0x2B),
        data(&[0, 130, 0, 130]),
    ]);
    assert_eq!(lcd.take_pending(), expected);
}

#[test]
fn window_arithmetic_holds_across_the_panel() {
    for x in (0u8..128).step_by(7) {
        for w in (1u8..=128 - x).step_by(11) {
            let (y, h) = (127 - x, (w % (x + 1)) + 1);
            assert!(Lcd::fits_panel(x, y, w, h));
            let mut lcd = Lcd::new();
            lcd.set_drawing_area(x, y, w, h);
            let expected = join(&[
                command(0x2A),
                data(&[0, 2 + x, 0, 2 + x + w - 1]),
                command(0x2B),
                data(&[0, 3 + y, 0, 3 + y + h - 1]),
            ]);
            assert_eq!(lcd.take_pending(), expected);
        }
    }
}

#[test]
fn fits_panel_rejects_what_leaves_the_panel() {
    assert!(Lcd::fits_panel(0, 0, 1, 1));
    assert!(Lcd::fits_panel(100, 100, 28, 28));
    assert!(!Lcd::fits_panel(100, 100, 29, 28));
    assert!(!Lcd::fits_panel(100, 100, 28, 29));
    assert!(!Lcd::fits_panel(128, 0, 1, 1));
    assert!(!Lcd::fits_panel(0, 0, 0, 1));
    assert!(!Lcd::fits_panel(0, 0, 1, 0));
    assert!(!Lcd::fits_panel(0, 0, 129, 1));
    assert!(!Lcd::fits_panel(255, 255, 255, 255));
}

#[test]
fn pixels_are_streamed_once() {
    let mut lcd = Lcd::new();
    lcd.draw_pixels(&[0x12, 0x34, 0x56, 0x78]);
    assert_eq!(
        lcd.take_pending(),
        join(&[command(0x2C), data(&[0x12, 0x34, 0x56, 0x78])])
    );
}

#[test]
fn repeat_counts_further_transmissions() {
    let mut lcd = Lcd::new();
    lcd.draw_pixels_repeatedly(&[0xAB, 0xCD, 0xEF], 2);
    assert_eq!(
        lcd.take_pending(),
        join(&[
            command(0x2C),
            data(&[0xAB, 0xCD, 0xEF, 0xAB, 0xCD, 0xEF, 0xAB, 0xCD, 0xEF]),
        ])
    );
}

#[test]
fn repeat_zero_is_one_transmission() {
    let mut once = Lcd::new();
    once.draw_pixels(&[1, 2, 3]);
    let mut repeated = Lcd::new();
    repeated.draw_pixels_repeatedly(&[1, 2, 3], 0);
    assert_eq!(once.take_pending(), repeated.take_pending());
}

#[test]
fn payload_is_sent_repeat_plus_one_times() {
    for repeat in [0usize, 1, 5, 96, 1000] {
        let payload = [9u8, 8, 7, 6, 5];
        let mut lcd = Lcd::new();
        lcd.draw_pixels_repeatedly(&payload, repeat);
        let ops = lcd.take_pending();
        let written: Vec<u8> = ops
            .iter()
            .filter_map(|op| match op {
                Write(byte) => Some(*byte),
                _ => None,
            })
            .collect();
        assert_eq!(written.len(), 1 + 5 * (repeat + 1));
        assert_eq!(written[0], 0x2C);
        for (i, byte) in written[1..].iter().enumerate() {
            assert_eq!(*byte, payload[i % 5]);
        }
    }
}

#[test]
fn empty_payload_sends_only_the_command() {
    let mut lcd = Lcd::new();
    lcd.draw_pixels_repeatedly(&[], 7);
    assert_eq!(lcd.take_pending(), join(&[command(0x2C), vec![AwaitIdle]]));
}

#[test]
fn device_select_frames_every_byte() {
    let mut lcd = Lcd::new();
    lcd.init();
    lcd.set_drawing_area(3, 4, 5, 6);
    lcd.draw_pixels_repeatedly(&[1, 2, 3], 4);
    lcd.display_on();
    let ops = lcd.take_pending();
    let mut writes = 0;
    for (i, op) in ops.iter().enumerate() {
        if let Write(_) = op {
            writes += 1;
            assert_eq!(ops[i - 1], Select);
            assert_eq!(ops[i + 1], AwaitIdle);
            assert_eq!(ops[i + 2], Deselect);
        }
    }
    assert_eq!(writes, 5 + 10 + 16 + 1);
}

#[test]
fn calls_are_recorded_in_order() {
    let mut lcd = Lcd::new();
    lcd.set_drawing_area(0, 0, 2, 1);
    lcd.draw_pixels(&[0xFF, 0xFF, 0xFF]);
    let first = lcd.take_pending();
    assert_eq!(
        first,
        join(&[
            command(0x2A),
            data(&[0, 2, 0, 3]),
            command(0x2B),
            data(&[0, 3, 0, 3]),
            command(0x2C),
            data(&[0xFF, 0xFF, 0xFF]),
        ])
    );
    assert_eq!(lcd.take_pending(), vec![]);
    lcd.display_on();
    assert_eq!(lcd.take_pending(), join(&[command(0x29), vec![Settle]]));
}
