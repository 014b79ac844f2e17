use td4::bitbutton::{InputHalfByte, RomByte, RomTable};
use td4::bits::{edit_bit, read_bit};
use td4::circle::{bit2color, indicator, Circle, Lamp};
use td4::clock::{Clock, RunState};
use td4::style::Theme;
use td4::td4_gui::{bit2style, bit2text, led4bit, Message};

#[test]
fn toggle_twice_restores_byte() {
    for b in 0u8..=255 {
        for i in 0u8..8 {
            let once = edit_bit(b, i, read_bit(b, i));
            assert_ne!(once, b);
            let twice = edit_bit(once, i, read_bit(once, i));
            assert_eq!(twice, b);
        }
    }
}

#[test]
fn edit_keeps_other_bits() {
    for b in 0u8..=255 {
        for i in 0u8..8 {
            for shown in [false, true] {
                let r = edit_bit(b, i, shown);
                assert_eq!(r & !(1u8 << i), b & !(1u8 << i));
                assert_eq!(read_bit(r, i), !shown);
            }
        }
    }
}

#[test]
fn edit_bit_values() {
    assert_eq!(edit_bit(0b0000_0000, 4, false), 0b0001_0000);
    assert_eq!(edit_bit(0b1111_1111, 0, true), 0b1111_1110);
    assert_eq!(edit_bit(0b1010_1010, 7, true), 0b0010_1010);
}

#[test]
fn input_buttons_msb_first() {
    let r = InputHalfByte::default().buttons(0b0110);
    assert_eq!(
        r,
        vec![
            Message::InputEdit(3, false),
            Message::InputEdit(2, true),
            Message::InputEdit(1, true),
            Message::InputEdit(0, false),
        ]
    );
}

#[test]
fn rom_byte_buttons_msb_first() {
    let r = RomByte::default().buttons(7, 0b1000_0001);
    assert_eq!(r.len(), 8);
    assert_eq!(r[0], Message::RomEdit(7, 7, true));
    assert_eq!(r[1], Message::RomEdit(7, 6, false));
    assert_eq!(r[6], Message::RomEdit(7, 1, false));
    assert_eq!(r[7], Message::RomEdit(7, 0, true));
}

#[test]
fn rom_table_rebuilds_on_resize() {
    let mut t = RomTable::default();
    let rows = t.create_layout(&vec![0xF0; 16]);
    assert_eq!(t.table.len(), 16);
    assert_eq!(rows.len(), 16);
    assert_eq!(rows[15][0], Message::RomEdit(15, 7, true));
    assert_eq!(rows[15][7], Message::RomEdit(15, 0, false));
    let rows = t.create_layout(&vec![1, 2, 3]);
    assert_eq!(t.table.len(), 3);
    assert_eq!(rows.len(), 3);
    assert_eq!(rows[2][6], Message::RomEdit(2, 1, true));
    assert_eq!(rows[2][7], Message::RomEdit(2, 0, true));
}

#[test]
fn labels_styles_and_colors() {
    assert_eq!(bit2text(true), '1');
    assert_eq!(bit2text(false), '0');
    assert_eq!(bit2style(true), Theme::Light);
    assert_eq!(bit2style(false), Theme::Dark);
    assert_eq!(bit2color(true), Lamp::Red);
    assert_eq!(bit2color(false), Lamp::Black);
}

#[test]
fn led_bits_msb_first() {
    assert_eq!(led4bit(0b1011), vec![true, false, true, true]);
    assert_eq!(led4bit(0), vec![false; 4]);
    assert_eq!(led4bit(0xF5), vec![false, true, false, true]);
}

#[test]
fn indicator_size_is_diameter() {
    let c = Circle::new(10, Lamp::Black);
    assert_eq!(c.width(), 20);
    assert_eq!(c.height(), 20);
    assert_eq!(c.border_radius(), 10);
    let big = indicator(u32::MAX, true);
    assert_eq!(big.width(), 2 * u32::MAX as u64);
    assert_eq!(big.color, Lamp::Red);
}

#[test]
fn clock_idle_over_many_periods() {
    let mut c = Clock::new(250);
    let start = c;
    for _ in 0..40 {
        assert_eq!(c.elapse(250), 0);
    }
    assert_eq!(c, start);
    assert_eq!(c.tick_period(), None);
    c.run();
    assert_eq!(c.state(), RunState::Active);
    assert_eq!(c.elapse(1000), 4);
    assert!(c.is_active());
}
