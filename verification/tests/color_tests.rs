//! The wire-to-native color decoding, one case per discriminant.

use crossterm_ffi::color::crossterm_ansi_color;
use crossterm_ffi::color::crossterm_color;
use crossterm_ffi::color::crossterm_color_type;
use crossterm_ffi::color::crossterm_color_value;
use crossterm_ffi::color::crossterm_rgb_color;
use crossterm_ffi::color::decode_color;
use crossterm_ffi::color::encode_color;
use crossterm_ffi::color::NativeColor;

fn plain(t: crossterm_color_type) -> crossterm_color {
    crossterm_color {
        t,
        v: crossterm_color_value::Empty,
    }
}

#[test]
fn reset_color_cast() {
    assert_eq!(
        NativeColor::Reset,
        decode_color(&plain(crossterm_color_type::CROSSTERM_RESET_COLOR)),
    );
}

#[test]
fn black_color_cast() {
    assert_eq!(
        NativeColor::Black,
        decode_color(&plain(crossterm_color_type::CROSSTERM_BLACK_COLOR)),
    );
}

#[test]
fn white_color_cast() {
    assert_eq!(
        NativeColor::White,
        decode_color(&plain(crossterm_color_type::CROSSTERM_WHITE_COLOR)),
    );
}

#[test]
fn red_color_cast() {
    assert_eq!(
        NativeColor::Red,
        decode_color(&plain(crossterm_color_type::CROSSTERM_RED_COLOR)),
    );
}

#[test]
fn green_color_cast() {
    assert_eq!(
        NativeColor::Green,
        decode_color(&plain(crossterm_color_type::CROSSTERM_GREEN_COLOR)),
    );
}

#[test]
fn blue_color_cast() {
    assert_eq!(
        NativeColor::Blue,
        decode_color(&plain(crossterm_color_type::CROSSTERM_BLUE_COLOR)),
    );
}

#[test]
fn yellow_color_cast() {
    assert_eq!(
        NativeColor::Yellow,
        decode_color(&plain(crossterm_color_type::CROSSTERM_YELLOW_COLOR)),
    );
}

#[test]
fn magenta_color_cast() {
    assert_eq!(
        NativeColor::Magenta,
        decode_color(&plain(crossterm_color_type::CROSSTERM_MAGENTA_COLOR)),
    );
}

#[test]
fn cyan_color_cast() {
    assert_eq!(
        NativeColor::Cyan,
        decode_color(&plain(crossterm_color_type::CROSSTERM_CYAN_COLOR)),
    );
}

#[test]
fn grey_color_cast() {
    assert_eq!(
        NativeColor::Grey,
        decode_color(&plain(crossterm_color_type::CROSSTERM_GREY_COLOR)),
    );
}

#[test]
fn dark_red_color_cast() {
    assert_eq!(
        NativeColor::DarkRed,
        decode_color(&plain(crossterm_color_type::CROSSTERM_DARK_RED_COLOR)),
    );
}

#[test]
fn dark_green_color_cast() {
    assert_eq!(
        NativeColor::DarkGreen,
        decode_color(&plain(crossterm_color_type::CROSSTERM_DARK_GREEN_COLOR)),
    );
}

#[test]
fn dark_blue_color_cast() {
    assert_eq!(
        NativeColor::DarkBlue,
        decode_color(&plain(crossterm_color_type::CROSSTERM_DARK_BLUE_COLOR)),
    );
}

#[test]
fn dark_yellow_color_cast() {
    assert_eq!(
        NativeColor::DarkYellow,
        decode_color(&plain(crossterm_color_type::CROSSTERM_DARK_YELLOW_COLOR)),
    );
}

#[test]
fn dark_magenta_color_cast() {
    assert_eq!(
        NativeColor::DarkMagenta,
        decode_color(&plain(crossterm_color_type::CROSSTERM_DARK_MAGENTA_COLOR)),
    );
}

#[test]
fn dark_cyan_color_cast() {
    assert_eq!(
        NativeColor::DarkCyan,
        decode_color(&plain(crossterm_color_type::CROSSTERM_DARK_CYAN_COLOR)),
    );
}

#[test]
fn dark_grey_color_cast() {
    assert_eq!(
        NativeColor::DarkGrey,
        decode_color(&plain(crossterm_color_type::CROSSTERM_DARK_GREY_COLOR)),
    );
}

#[test]
fn ansi_color_cast() {
    assert_eq!(
        NativeColor::Ansi(59),
        decode_color(&crossterm_color {
            t: crossterm_color_type::CROSSTERM_ANSI_COLOR,
            v: crossterm_color_value::Ansi(crossterm_ansi_color { value: 59 }),
        }),
    );
}

#[test]
fn rgb_color_cast() {
    assert_eq!(
        NativeColor::Rgb(5, 9, 15),
        decode_color(&crossterm_color {
            t: crossterm_color_type::CROSSTERM_RGB_COLOR,
            v: crossterm_color_value::Rgb(crossterm_rgb_color { r: 5, g: 9, b: 15 }),
        }),
    );
}

#[test]
fn every_ansi_index_round_trips() {
    let mut i: u32 = 0;
    while i <= 255 {
        let c = NativeColor::Ansi(i as u8);
        assert_eq!(c, decode_color(&encode_color(&c)));
        i += 1;
    }
}

#[test]
fn rgb_round_trips() {
    let samples = [(0u8, 0u8, 0u8), (255, 255, 255), (5, 9, 15), (1, 128, 254)];
    for (r, g, b) in samples {
        let c = NativeColor::Rgb(r, g, b);
        assert_eq!(c, decode_color(&encode_color(&c)));
    }
}

#[test]
fn named_colors_round_trip() {
    let all = [
        NativeColor::Reset,
        NativeColor::Black,
        NativeColor::White,
        NativeColor::Red,
        NativeColor::Green,
        NativeColor::Blue,
        NativeColor::Yellow,
        NativeColor::Magenta,
        NativeColor::Cyan,
        NativeColor::Grey,
        NativeColor::DarkRed,
        NativeColor::DarkGreen,
        NativeColor::DarkBlue,
        NativeColor::DarkYellow,
        NativeColor::DarkMagenta,
        NativeColor::DarkCyan,
        NativeColor::DarkGrey,
    ];
    for c in all {
        assert_eq!(c, decode_color(&encode_color(&c)));
    }
}
