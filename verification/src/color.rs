//! The color codec: translation between the native color model and the
//! fixed-layout wire color value.
//!
//! A wire color is a discriminant plus a payload.  The payload variant is
//! determined solely by the discriminant: the ANSI-indexed discriminant
//! carries one byte, the RGB discriminant carries three, and every other
//! discriminant carries nothing.  Encoding is total; decoding asks that the
//! value be well formed, since in the C layout the payload is a union and
//! reading the wrong member is undefined.

use vstd::prelude::*;

verus! {

/// The discriminant of a wire color value.
#[allow(non_camel_case_types)]
#[derive(Debug, Clone, Copy, PartialEq, Eq, Structural)]
pub enum crossterm_color_type {
    CROSSTERM_RESET_COLOR,
    CROSSTERM_BLACK_COLOR,
    CROSSTERM_WHITE_COLOR,
    CROSSTERM_RED_COLOR,
    CROSSTERM_GREEN_COLOR,
    CROSSTERM_BLUE_COLOR,
    CROSSTERM_YELLOW_COLOR,
    CROSSTERM_MAGENTA_COLOR,
    CROSSTERM_CYAN_COLOR,
    CROSSTERM_GREY_COLOR,
    CROSSTERM_DARK_RED_COLOR,
    CROSSTERM_DARK_GREEN_COLOR,
    CROSSTERM_DARK_BLUE_COLOR,
    CROSSTERM_DARK_YELLOW_COLOR,
    CROSSTERM_DARK_MAGENTA_COLOR,
    CROSSTERM_DARK_CYAN_COLOR,
    CROSSTERM_DARK_GREY_COLOR,
    CROSSTERM_ANSI_COLOR,
    CROSSTERM_RGB_COLOR,
}

/// The one-byte payload of an ANSI-indexed wire color.
#[allow(non_camel_case_types)]
#[derive(Debug, Clone, Copy, PartialEq, Eq, Structural)]
pub struct crossterm_ansi_color {
    pub value: u8,
}

/// The three-byte payload of an RGB wire color.
#[allow(non_camel_case_types)]
#[derive(Debug, Clone, Copy, PartialEq, Eq, Structural)]
pub struct crossterm_rgb_color {
    pub r: u8,
    pub g: u8,
    pub b: u8,
}

/// The payload of a wire color value.
///
/// In the C layout this is an untagged union; here the variant is explicit,
/// and well-formedness ties it to the discriminant.
#[allow(non_camel_case_types)]
#[derive(Debug, Clone, Copy, PartialEq, Eq, Structural)]
pub enum crossterm_color_value {
    Empty,
    Ansi(crossterm_ansi_color),
    Rgb(crossterm_rgb_color),
}

/// A wire color value: a discriminant plus the payload it selects.
#[allow(non_camel_case_types)]
#[derive(Debug, Clone, Copy, PartialEq, Eq, Structural)]
pub struct crossterm_color {
    pub t: crossterm_color_type,
    pub v: crossterm_color_value,
}

/// The native color model: a reset marker, sixteen named colors, an
/// ANSI-indexed color, or a 24-bit RGB color.
#[derive(Debug, Clone, Copy, PartialEq, Eq, Structural)]
pub enum NativeColor {
    Reset,
    Black,
    White,
    Red,
    Green,
    Blue,
    Yellow,
    Magenta,
    Cyan,
    Grey,
    DarkRed,
    DarkGreen,
    DarkBlue,
    DarkYellow,
    DarkMagenta,
    DarkCyan,
    DarkGrey,
    Ansi(u8),
    Rgb(u8, u8, u8),
}

/// The payload variant matches the discriminant: one byte for the
/// ANSI-indexed discriminant, three bytes for the RGB discriminant, and
/// nothing otherwise.
pub open spec fn color_wf(w: crossterm_color) -> bool {
    match w.t {
        crossterm_color_type::CROSSTERM_ANSI_COLOR => w.v is Ansi,
        crossterm_color_type::CROSSTERM_RGB_COLOR => w.v is Rgb,
        _ => w.v is Empty,
    }
}

/// The wire representation of a native color.
pub open spec fn encode_color_spec(c: NativeColor) -> crossterm_color {
    match c {
        NativeColor::Reset => plain_wire(crossterm_color_type::CROSSTERM_RESET_COLOR),
        NativeColor::Black => plain_wire(crossterm_color_type::CROSSTERM_BLACK_COLOR),
        NativeColor::White => plain_wire(crossterm_color_type::CROSSTERM_WHITE_COLOR),
        NativeColor::Red => plain_wire(crossterm_color_type::CROSSTERM_RED_COLOR),
        NativeColor::Green => plain_wire(crossterm_color_type::CROSSTERM_GREEN_COLOR),
        NativeColor::Blue => plain_wire(crossterm_color_type::CROSSTERM_BLUE_COLOR),
        NativeColor::Yellow => plain_wire(crossterm_color_type::CROSSTERM_YELLOW_COLOR),
        NativeColor::Magenta => plain_wire(crossterm_color_type::CROSSTERM_MAGENTA_COLOR),
        NativeColor::Cyan => plain_wire(crossterm_color_type::CROSSTERM_CYAN_COLOR),
        NativeColor::Grey => plain_wire(crossterm_color_type::CROSSTERM_GREY_COLOR),
        NativeColor::DarkRed => plain_wire(crossterm_color_type::CROSSTERM_DARK_RED_COLOR),
        NativeColor::DarkGreen => plain_wire(crossterm_color_type::CROSSTERM_DARK_GREEN_COLOR),
        NativeColor::DarkBlue => plain_wire(crossterm_color_type::CROSSTERM_DARK_BLUE_COLOR),
        NativeColor::DarkYellow => plain_wire(crossterm_color_type::CROSSTERM_DARK_YELLOW_COLOR),
        NativeColor::DarkMagenta => plain_wire(crossterm_color_type::CROSSTERM_DARK_MAGENTA_COLOR),
        NativeColor::DarkCyan => plain_wire(crossterm_color_type::CROSSTERM_DARK_CYAN_COLOR),
        NativeColor::DarkGrey => plain_wire(crossterm_color_type::CROSSTERM_DARK_GREY_COLOR),
        NativeColor::Ansi(value) => crossterm_color {
            t: crossterm_color_type::CROSSTERM_ANSI_COLOR,
            v: crossterm_color_value::Ansi(crossterm_ansi_color { value }),
        },
        NativeColor::Rgb(r, g, b) => crossterm_color {
            t: crossterm_color_type::CROSSTERM_RGB_COLOR,
            v: crossterm_color_value::Rgb(crossterm_rgb_color { r, g, b }),
        },
    }
}

/// A wire color with no payload.
pub open spec fn plain_wire(t: crossterm_color_type) -> crossterm_color {
    crossterm_color { t, v: crossterm_color_value::Empty }
}

/// The native color a wire value stands for.
///
/// Meaningful only for well-formed wire values; for a payload inconsistent
/// with the discriminant the result falls back to the reset color, a case a
/// well-formed value never reaches.
pub open spec fn decode_color_spec(w: crossterm_color) -> NativeColor {
    match w.t {
        crossterm_color_type::CROSSTERM_RESET_COLOR => NativeColor::Reset,
        crossterm_color_type::CROSSTERM_BLACK_COLOR => NativeColor::Black,
        crossterm_color_type::CROSSTERM_WHITE_COLOR => NativeColor::White,
        crossterm_color_type::CROSSTERM_RED_COLOR => NativeColor::Red,
        crossterm_color_type::CROSSTERM_GREEN_COLOR => NativeColor::Green,
        crossterm_color_type::CROSSTERM_BLUE_COLOR => NativeColor::Blue,
        crossterm_color_type::CROSSTERM_YELLOW_COLOR => NativeColor::Yellow,
        crossterm_color_type::CROSSTERM_MAGENTA_COLOR => NativeColor::Magenta,
        crossterm_color_type::CROSSTERM_CYAN_COLOR => NativeColor::Cyan,
        crossterm_color_type::CROSSTERM_GREY_COLOR => NativeColor::Grey,
        crossterm_color_type::CROSSTERM_DARK_RED_COLOR => NativeColor::DarkRed,
        crossterm_color_type::CROSSTERM_DARK_GREEN_COLOR => NativeColor::DarkGreen,
        crossterm_color_type::CROSSTERM_DARK_BLUE_COLOR => NativeColor::DarkBlue,
        crossterm_color_type::CROSSTERM_DARK_YELLOW_COLOR => NativeColor::DarkYellow,
        crossterm_color_type::CROSSTERM_DARK_MAGENTA_COLOR => NativeColor::DarkMagenta,
        crossterm_color_type::CROSSTERM_DARK_CYAN_COLOR => NativeColor::DarkCyan,
        crossterm_color_type::CROSSTERM_DARK_GREY_COLOR => NativeColor::DarkGrey,
        crossterm_color_type::CROSSTERM_ANSI_COLOR => match w.v {
            crossterm_color_value::Ansi(a) => NativeColor::Ansi(a.value),
            _ => NativeColor::Reset,
        },
        crossterm_color_type::CROSSTERM_RGB_COLOR => match w.v {
            crossterm_color_value::Rgb(p) => NativeColor::Rgb(p.r, p.g, p.b),
            _ => NativeColor::Reset,
        },
    }
}

/// Encodes a native color as its wire representation.  Total: every native
/// color has exactly one wire form, and that form is well formed.
pub fn encode_color(c: &NativeColor) -> (w: crossterm_color)
    ensures
        w == encode_color_spec(*c),
        color_wf(w),
{
    match c {
        NativeColor::Reset => plain(crossterm_color_type::CROSSTERM_RESET_COLOR),
        NativeColor::Black => plain(crossterm_color_type::CROSSTERM_BLACK_COLOR),
        NativeColor::White => plain(crossterm_color_type::CROSSTERM_WHITE_COLOR),
        NativeColor::Red => plain(crossterm_color_type::CROSSTERM_RED_COLOR),
        NativeColor::Green => plain(crossterm_color_type::CROSSTERM_GREEN_COLOR),
        NativeColor::Blue => plain(crossterm_color_type::CROSSTERM_BLUE_COLOR),
        NativeColor::Yellow => plain(crossterm_color_type::CROSSTERM_YELLOW_COLOR),
        NativeColor::Magenta => plain(crossterm_color_type::CROSSTERM_MAGENTA_COLOR),
        NativeColor::Cyan => plain(crossterm_color_type::CROSSTERM_CYAN_COLOR),
        NativeColor::Grey => plain(crossterm_color_type::CROSSTERM_GREY_COLOR),
        NativeColor::DarkRed => plain(crossterm_color_type::CROSSTERM_DARK_RED_COLOR),
        NativeColor::DarkGreen => plain(crossterm_color_type::CROSSTERM_DARK_GREEN_COLOR),
        NativeColor::DarkBlue => plain(crossterm_color_type::CROSSTERM_DARK_BLUE_COLOR),
        NativeColor::DarkYellow => plain(crossterm_color_type::CROSSTERM_DARK_YELLOW_COLOR),
        NativeColor::DarkMagenta => plain(crossterm_color_type::CROSSTERM_DARK_MAGENTA_COLOR),
        NativeColor::DarkCyan => plain(crossterm_color_type::CROSSTERM_DARK_CYAN_COLOR),
        NativeColor::DarkGrey => plain(crossterm_color_type::CROSSTERM_DARK_GREY_COLOR),
        NativeColor::Ansi(value) => crossterm_color {
            t: crossterm_color_type::CROSSTERM_ANSI_COLOR,
            v: crossterm_color_value::Ansi(crossterm_ansi_color { value: *value }),
        },
        NativeColor::Rgb(r, g, b) => crossterm_color {
            t: crossterm_color_type::CROSSTERM_RGB_COLOR,
            v: crossterm_color_value::Rgb(crossterm_rgb_color { r: *r, g: *g, b: *b }),
        },
    }
}

/// A wire color with no payload.
fn plain(t: crossterm_color_type) -> (w: crossterm_color)
    ensures
        w == plain_wire(t),
{
    crossterm_color { t, v: crossterm_color_value::Empty }
}

/// Decodes a well-formed wire color back to the native model.  The payload is
/// read only where the discriminant selects it.
pub fn decode_color(w: &crossterm_color) -> (c: NativeColor)
    requires
        color_wf(*w),
    ensures
        c == decode_color_spec(*w),
{
    match w.t {
        crossterm_color_type::CROSSTERM_RESET_COLOR => NativeColor::Reset,
        crossterm_color_type::CROSSTERM_BLACK_COLOR => NativeColor::Black,
        crossterm_color_type::CROSSTERM_WHITE_COLOR => NativeColor::White,
        crossterm_color_type::CROSSTERM_RED_COLOR => NativeColor::Red,
        crossterm_color_type::CROSSTERM_GREEN_COLOR => NativeColor::Green,
        crossterm_color_type::CROSSTERM_BLUE_COLOR => NativeColor::Blue,
        crossterm_color_type::CROSSTERM_YELLOW_COLOR => NativeColor::Yellow,
        crossterm_color_type::CROSSTERM_MAGENTA_COLOR => NativeColor::Magenta,
        crossterm_color_type::CROSSTERM_CYAN_COLOR => NativeColor::Cyan,
        crossterm_color_type::CROSSTERM_GREY_COLOR => NativeColor::Grey,
        crossterm_color_type::CROSSTERM_DARK_RED_COLOR => NativeColor::DarkRed,
        crossterm_color_type::CROSSTERM_DARK_GREEN_COLOR => NativeColor::DarkGreen,
        crossterm_color_type::CROSSTERM_DARK_BLUE_COLOR => NativeColor::DarkBlue,
        crossterm_color_type::CROSSTERM_DARK_YELLOW_COLOR => NativeColor::DarkYellow,
        crossterm_color_type::CROSSTERM_DARK_MAGENTA_COLOR => NativeColor::DarkMagenta,
        crossterm_color_type::CROSSTERM_DARK_CYAN_COLOR => NativeColor::DarkCyan,
        crossterm_color_type::CROSSTERM_DARK_GREY_COLOR => NativeColor::DarkGrey,
        crossterm_color_type::CROSSTERM_ANSI_COLOR => match &w.v {
            crossterm_color_value::Ansi(a) => NativeColor::Ansi(a.value),
            _ => NativeColor::Reset,
        },
        crossterm_color_type::CROSSTERM_RGB_COLOR => match &w.v {
            crossterm_color_value::Rgb(p) => NativeColor::Rgb(p.r, p.g, p.b),
            _ => NativeColor::Reset,
        },
    }
}

/// Encoding then decoding gives back the starting native color: the wire
/// format loses nothing, for every named color, every ANSI index and every
/// RGB triple.
pub proof fn lemma_color_round_trip(c: NativeColor)
    ensures
        decode_color_spec(encode_color_spec(c)) == c,
{
}

/// Decoding then encoding gives back the starting wire value, for every
/// well-formed wire color: the two representations are in exact one-to-one
/// correspondence.
pub proof fn lemma_wire_color_round_trip(w: crossterm_color)
    requires
        color_wf(w),
    ensures
        encode_color_spec(decode_color_spec(w)) == w,
{
}

} // verus!
