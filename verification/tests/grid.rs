use vga_buffer::buffer::{Buffer, BUFFER_HEIGHT, BUFFER_WIDTH};
use vga_buffer::cell::ScreenChar;
use vga_buffer::color::{Color, ColorCode};
use volatile::Volatile;

fn marker(row: usize, col: usize) -> ScreenChar {
    ScreenChar {
        ascii_character: ((row * BUFFER_WIDTH + col) % 251) as u8,
        color_code: ColorCode::new(Color::White, Color::Blue),
    }
}

fn marked_buffer() -> Buffer {
    Buffer::new(core::array::from_fn(|row| {
        core::array::from_fn(|col| Volatile::new(marker(row, col)))
    }))
}

#[test]
fn grid_is_eighty_by_twenty_five() {
    assert_eq!(BUFFER_WIDTH, 80);
    assert_eq!(BUFFER_HEIGHT, 25);
}

#[test]
fn read_returns_what_each_slot_holds() {
    let buffer = marked_buffer();
    for row in 0..BUFFER_HEIGHT {
        for col in 0..BUFFER_WIDTH {
            assert_eq!(buffer.read(row, col), marker(row, col));
        }
    }
}

#[test]
fn write_changes_the_addressed_cell_only() {
    let mut buffer = marked_buffer();
    let value = ScreenChar {
        ascii_character: b'X',
        color_code: ColorCode::new(Color::Red, Color::Black),
    };
    buffer.write(7, 42, value);
    for row in 0..BUFFER_HEIGHT {
        for col in 0..BUFFER_WIDTH {
            let expected = if row == 7 && col == 42 { value } else { marker(row, col) };
            assert_eq!(buffer.read(row, col), expected);
        }
    }
}

#[test]
fn write_reaches_the_corners() {
    let mut buffer = marked_buffer();
    let value = ScreenChar {
        ascii_character: b'#',
        color_code: ColorCode::new(Color::Green, Color::Black),
    };
    buffer.write(0, 0, value);
    buffer.write(BUFFER_HEIGHT - 1, BUFFER_WIDTH - 1, value);
    assert_eq!(buffer.read(0, 0), value);
    assert_eq!(buffer.read(BUFFER_HEIGHT - 1, BUFFER_WIDTH - 1), value);
    assert_eq!(buffer.read(0, 1), marker(0, 1));
    assert_eq!(
        buffer.read(BUFFER_HEIGHT - 1, BUFFER_WIDTH - 2),
        marker(BUFFER_HEIGHT - 1, BUFFER_WIDTH - 2)
    );
}

#[test]
fn later_write_replaces_the_earlier_one() {
    let mut buffer = marked_buffer();
    let first = ScreenChar {
        ascii_character: b'a',
        color_code: ColorCode::new(Color::Pink, Color::Black),
    };
    let second = ScreenChar {
        ascii_character: b'b',
        color_code: ColorCode::new(Color::Cyan, Color::Black),
    };
    buffer.write(3, 3, first);
    buffer.write(3, 3, second);
    assert_eq!(buffer.read(3, 3), second);
}
