use vga_buffer::color::{Color, ColorCode};

fn palette() -> Vec<Color> {
    vec![
        Color::Black,
        Color::Blue,
        Color::Green,
        Color::Cyan,
        Color::Red,
        Color::Magenta,
        Color::Brown,
        Color::LightGray,
        Color::DarkGray,
        Color::LightBlue,
        Color::LightGreen,
        Color::LightCyan,
        Color::LightRed,
        Color::Pink,
        Color::Yellow,
        Color::White,
    ]
}

#[test]
fn palette_indices_run_from_zero_to_fifteen() {
    let colors = palette();
    assert_eq!(colors.len(), 16);
    for (index, color) in colors.iter().enumerate() {
        assert_eq!(color.code() as usize, index);
    }
}

#[test]
fn named_colors_have_their_hardware_index() {
    assert_eq!(Color::Black.code(), 0);
    assert_eq!(Color::Blue.code(), 1);
    assert_eq!(Color::LightGray.code(), 7);
    assert_eq!(Color::DarkGray.code(), 8);
    assert_eq!(Color::Pink.code(), 13);
    assert_eq!(Color::Yellow.code(), 14);
    assert_eq!(Color::White.code(), 15);
}

#[test]
fn attribute_nibbles_are_the_two_color_indices() {
    for foreground in palette() {
        for background in palette() {
            let bits = ColorCode::new(foreground, background).bits();
            assert_eq!(bits & 0x0f, foreground.code());
            assert_eq!(bits >> 4, background.code());
        }
    }
}

#[test]
fn blue_on_white_is_f1() {
    assert_eq!(ColorCode::new(Color::Blue, Color::White).bits(), 0xf1);
}

#[test]
fn yellow_on_black_is_0e() {
    assert_eq!(ColorCode::new(Color::Yellow, Color::Black).bits(), 0x0e);
}

#[test]
fn white_on_white_sets_every_bit() {
    assert_eq!(ColorCode::new(Color::White, Color::White).bits(), 0xff);
}

#[test]
fn black_on_black_is_zero() {
    assert_eq!(ColorCode::new(Color::Black, Color::Black).bits(), 0x00);
}

#[test]
fn attribute_depends_on_the_order_of_the_colors() {
    let one = ColorCode::new(Color::Red, Color::Green);
    let other = ColorCode::new(Color::Green, Color::Red);
    assert_eq!(one.bits(), 0x24);
    assert_eq!(other.bits(), 0x42);
    assert_ne!(one, other);
}

#[test]
fn equal_colors_give_equal_attributes() {
    assert_eq!(
        ColorCode::new(Color::Cyan, Color::Brown),
        ColorCode::new(Color::Cyan, Color::Brown)
    );
}
