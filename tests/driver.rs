use embedded_graphics::pixelcolor::raw::ToBytes;
use embedded_graphics::pixelcolor::IntoStorage;
use embedded_graphics::prelude::RgbColor;
use st7735::cmd::{init_sequence, Command, CASET, MADCTL, RAMWR, RASET};
use st7735::{Action, Orientation, PixelOrder, Rgb565, ST7735};

fn panel() -> ST7735 {
    ST7735::new(PixelOrder::BGR, true, Orientation::LandscapeSwapped, 160, 80)
}

fn data(b: &[u8]) -> Action {
    Action::Data(b.to_vec())
}

#[test]
fn access_control_byte_is_orientation_or_pixel_order() {
    let cases = [
        (Orientation::Portrait, 0x00u8),
        (Orientation::Landscape, 0x60),
        (Orientation::PortraitSwapped, 0xC0),
        (Orientation::LandscapeSwapped, 0xA0),
    ];
    for (o, code) in cases {
        for (p, pcode) in [(PixelOrder::RGB, 0x00u8), (PixelOrder::BGR, 0x08)] {
            let mut d = ST7735::new(p, false, Orientation::Portrait, 128, 160);
            let r = d.set_orientation(o);
            assert_eq!(r, vec![Action::Command(MADCTL), data(&[code | pcode])]);
            assert_eq!(code & pcode, 0);
            assert_eq!((code | pcode) & 0x17, 0);
            assert_eq!(d.orientation(), o);
        }
    }
}

#[test]
fn init_sends_reset_then_table_in_order() {
    let r = panel().init();
    let expected = vec![
        Action::ResetHigh,
        Action::DelayMs(10),
        Action::ResetLow,
        Action::DelayMs(10),
        Action::ResetHigh,
        Action::Command(0x01),
        Action::DelayMs(120),
        Action::Command(0x11),
        Action::DelayMs(255),
        Action::Command(0xB1),
        data(&[0x01, 0x2C, 0x2D]),
        Action::Command(0xB2),
        data(&[0x01, 0x2C, 0x2D]),
        Action::Command(0xB3),
        data(&[0x01, 0x2C, 0x2D, 0x01, 0x2C, 0x2D]),
        Action::DelayMs(10),
        Action::Command(0xB4),
        data(&[0x07]),
        Action::Command(0xC0),
        data(&[0xA2, 0x02, 0x84]),
        Action::Command(0xC1),
        data(&[0xC5]),
        Action::Command(0xC2),
        data(&[0x0A, 0x00]),
        Action::Command(0xC3),
        data(&[0x8A, 0x2A]),
        Action::Command(0xC4),
        data(&[0x8A, 0xEE]),
        Action::Command(0xC5),
        data(&[0x0E]),
        Action::Command(0x21),
        Action::Command(0x36),
        data(&[0xA8]),
        Action::Command(0x3A),
        data(&[0x05]),
        Action::Command(0x2A),
        data(&[0x00, 1, 0x00, 161]),
        Action::Command(0x2B),
        data(&[0x00, 26, 0x00, 106]),
        Action::Command(0xE0),
        data(&[
            0x02, 0x1c, 0x07, 0x12, 0x37, 0x32, 0x29, 0x2d, 0x29, 0x25, 0x2b, 0x39, 0x00, 0x01,
            0x03, 0x10,
        ]),
        Action::Command(0xE1),
        data(&[
            0x03, 0x1d, 0x07, 0x06, 0x2e, 0x2c, 0x29, 0x2d, 0x2e, 0x2e, 0x37, 0x3f, 0x00, 0x00,
            0x02, 0x10,
        ]),
        Action::Command(0x13),
        Action::DelayMs(10),
        Action::Command(0x29),
        Action::DelayMs(100),
    ];
    assert_eq!(r, expected);
    assert_eq!(panel().reset(), expected[..5].to_vec());
    assert_eq!(panel().send_init_commands(), expected[5..].to_vec());
}

#[test]
fn init_without_inversion_sends_inversion_off() {
    let d = ST7735::new(PixelOrder::RGB, false, Orientation::Portrait, 128, 160);
    let r = d.send_init_commands();
    assert!(r.contains(&Action::Command(0x20)));
    assert!(!r.contains(&Action::Command(0x21)));
    assert!(r.contains(&data(&[0x00])));
    assert!(r.contains(&data(&[0x00, 1, 0x00, 129])));
    assert!(r.contains(&data(&[0x00, 26, 0x00, 186])));
}

#[test]
fn command_table_has_every_record() {
    let t = init_sequence(true, 0xA8, vec![0, 1, 0, 161], vec![0, 26, 0, 106]);
    assert_eq!(t.len(), 21);
    assert_eq!(t[15].instruction, CASET);
    assert_eq!(t[15].params, vec![0, 1, 0, 161]);
    assert_eq!(t[16].instruction, RASET);
    let total: u32 = t.iter().map(|c| c.delay_time).sum();
    assert_eq!(total, 120 + 255 + 10 + 10 + 100);
    let c = Command::new(0x36, vec![0x08], 5);
    assert_eq!((c.instruction, c.params, c.delay_time), (0x36, vec![0x08], 5));
}

#[test]
fn address_window_sends_column_row_then_memory_write() {
    let r = panel().set_address_window(2, 3, 10, 20);
    assert_eq!(
        r,
        vec![
            Action::Command(CASET),
            data(&[0x00, 3, 0x00, 11]),
            Action::Command(RASET),
            data(&[0x00, 29, 0x00, 46]),
            Action::Command(RAMWR),
        ]
    );
}

#[test]
fn address_window_uses_sixteen_bit_registers() {
    let mut d = panel();
    d.set_offset(0x0100, 0);
    let r = d.set_address_window(0x34, 0, 0x1FF, 5);
    assert_eq!(r[1], data(&[0x01, 0x34, 0x02, 0xFF]));
    assert_eq!(r[3], data(&[0x00, 0x00, 0x00, 0x05]));
}

#[test]
fn set_pixel_is_window_then_one_write() {
    let d = panel();
    let mut expected = d.set_address_window(7, 9, 7, 9);
    expected.push(data(&[0xAB, 0xCD]));
    assert_eq!(d.set_pixel(7, 9, 0xABCD), expected);
}

#[test]
fn clear_blue_on_landscape_panel() {
    let d = panel();
    let r = d.clear(Rgb565 { r: 0, g: 0, b: 31 });
    let blue = embedded_graphics::pixelcolor::Rgb565::BLUE;
    let bytes = blue.to_be_bytes();
    assert_eq!(bytes, blue.into_storage().to_be_bytes());
    assert_eq!(r.len(), 5 + 12800);
    assert_eq!(r[..5].to_vec(), d.set_address_window(0, 0, 159, 79));
    assert_eq!(r[1], data(&[0x00, 1, 0x00, 160]));
    assert_eq!(r[3], data(&[0x00, 26, 0x00, 105]));
    for a in &r[5..] {
        assert_eq!(*a, data(&bytes));
        assert_eq!(*a, data(&[0x00, 0x1F]));
    }
}

#[test]
fn clear_packs_channels_and_drops_extra_bits() {
    let d = ST7735::new(PixelOrder::RGB, false, Orientation::Portrait, 2, 3);
    let r = d.clear(Rgb565 { r: 31, g: 0, b: 0 });
    assert_eq!(r.len(), 5 + 6);
    assert_eq!(r[5], data(&[0xF8, 0x00]));
    let r = d.clear(Rgb565 { r: 0, g: 63, b: 0 });
    assert_eq!(r[10], data(&[0x07, 0xE0]));
    let r = d.clear(Rgb565 { r: 0xFF, g: 0xFF, b: 0xFF });
    assert_eq!(r[6], data(&[0xFF, 0xFF]));
    let r = d.clear(Rgb565 { r: 0x21, g: 0x41, b: 0x22 });
    assert_eq!(r[7], data(&[0x08, 0x22]));
}

#[test]
fn clear_single_pixel_panel() {
    let d = ST7735::new(PixelOrder::RGB, false, Orientation::Portrait, 1, 1);
    let r = d.clear(Rgb565 { r: 1, g: 2, b: 3 });
    assert_eq!(r.len(), 6);
    assert_eq!(r[1], data(&[0, 1, 0, 1]));
    assert_eq!(r[3], data(&[0, 26, 0, 26]));
    assert_eq!(r[5], data(&[0x08, 0x43]));
}

#[test]
fn set_orientation_twice_is_idempotent() {
    let mut d = panel();
    let first = d.set_orientation(Orientation::Landscape);
    let after_first = d;
    let second = d.set_orientation(Orientation::Landscape);
    assert_eq!(first, second);
    assert_eq!(d, after_first);
    assert_eq!(first, vec![Action::Command(MADCTL), data(&[0x68])]);
}

#[test]
fn set_offset_moves_window() {
    let mut d = panel();
    d.set_offset(0, 0);
    let r = d.set_address_window(0, 0, 159, 79);
    assert_eq!(r[1], data(&[0, 0, 0, 159]));
    assert_eq!(r[3], data(&[0, 0, 0, 79]));
}

#[test]
fn size_is_logical_size() {
    assert_eq!(panel().size(), (160, 80));
}

#[test]
fn draw_iter_writes_pixels_in_order() {
    let d = panel();
    let r = d.draw_iter(&vec![(1, 2, 0x1234), (3, 4, 0xFFFF)]);
    let mut expected = d.set_pixel(1, 2, 0x1234);
    expected.extend(d.set_pixel(3, 4, 0xFFFF));
    assert_eq!(r, expected);
    assert!(d.draw_iter(&vec![]).is_empty());
}
