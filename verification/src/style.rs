//! Style commands: foreground and background color, and text attributes.
//!
//! A color command is `ESC [ <body> m`, where the body selects the color:
//! `39` (foreground) or `49` (background) for the reset color, and otherwise
//! `38;` or `48;` followed by `5;<index>` for a named or ANSI-indexed color
//! or `2;<r>;<g>;<b>` for an RGB color.  An attribute command is
//! `ESC [ <sgr> m` with the attribute's Select-Graphic-Rendition number.
//!
//! Resetting bold and resetting dim both queue the same normal-intensity
//! command (SGR `22`): the two resets are deliberately not independent, by
//! design of the underlying style model.

use vstd::prelude::*;

use crate::ansi::csi_prefix;
use crate::ansi::csi_vec;
use crate::ansi::dec_bytes;
use crate::ansi::push_dec;
use crate::color::color_wf;
use crate::color::crossterm_color;
use crate::color::decode_color;
use crate::color::decode_color_spec;
use crate::color::NativeColor;
use crate::error::CrosstermResult;
use crate::stream::crossterm_stream;
use crate::stream::queue_bytes;
use crate::stream::queue_post;
use crate::stream::StreamSink;

verus! {

/// The ANSI palette index of a named color: the dark variants occupy `0`
/// through `7`, the bright variants `8` through `15`.  Meaningful only for
/// the sixteen named colors.
pub open spec fn ansi_index_spec(c: NativeColor) -> nat {
    match c {
        NativeColor::Black => 0,
        NativeColor::DarkRed => 1,
        NativeColor::DarkGreen => 2,
        NativeColor::DarkYellow => 3,
        NativeColor::DarkBlue => 4,
        NativeColor::DarkMagenta => 5,
        NativeColor::DarkCyan => 6,
        NativeColor::Grey => 7,
        NativeColor::DarkGrey => 8,
        NativeColor::Red => 9,
        NativeColor::Green => 10,
        NativeColor::Yellow => 11,
        NativeColor::Blue => 12,
        NativeColor::Magenta => 13,
        NativeColor::Cyan => 14,
        NativeColor::White => 15,
        _ => 0,
    }
}

/// Whether a native color is one of the sixteen named colors.
pub open spec fn is_named_color(c: NativeColor) -> bool {
    !(c is Reset || c is Ansi || c is Rgb)
}

/// The body selecting a non-reset color: `5;<index>` for a named or
/// ANSI-indexed color, `2;<r>;<g>;<b>` for an RGB color.
pub open spec fn color_tail_bytes(c: NativeColor) -> Seq<u8> {
    match c {
        NativeColor::Reset => Seq::empty(),
        NativeColor::Ansi(n) => seq![53u8, 59u8] + dec_bytes(n as nat),
        NativeColor::Rgb(r, g, b) => seq![50u8, 59u8] + dec_bytes(r as nat) + seq![59u8]
            + dec_bytes(g as nat) + seq![59u8] + dec_bytes(b as nat),
        _ => seq![53u8, 59u8] + dec_bytes(ansi_index_spec(c)),
    }
}

/// `ESC [ <body> m` setting the foreground color: body `39` for the reset
/// color, `38;` plus the color's selector otherwise.
pub open spec fn fg_color_bytes(c: NativeColor) -> Seq<u8> {
    if c is Reset {
        csi_prefix() + seq![51u8, 57u8, 109u8]
    } else {
        csi_prefix() + seq![51u8, 56u8, 59u8] + color_tail_bytes(c) + seq![109u8]
    }
}

/// `ESC [ <body> m` setting the background color: body `49` for the reset
/// color, `48;` plus the color's selector otherwise.
pub open spec fn bg_color_bytes(c: NativeColor) -> Seq<u8> {
    if c is Reset {
        csi_prefix() + seq![52u8, 57u8, 109u8]
    } else {
        csi_prefix() + seq![52u8, 56u8, 59u8] + color_tail_bytes(c) + seq![109u8]
    }
}

/// `ESC [ <sgr> m`: the attribute command with the given
/// Select-Graphic-Rendition number.
pub open spec fn attribute_bytes(sgr: nat) -> Seq<u8> {
    csi_prefix() + dec_bytes(sgr) + seq![109u8]
}

/// The palette index of a named color.
fn ansi_index(c: &NativeColor) -> (k: u8)
    requires
        is_named_color(*c),
    ensures
        k as nat == ansi_index_spec(*c),
{
    match c {
        NativeColor::Black => 0,
        NativeColor::DarkRed => 1,
        NativeColor::DarkGreen => 2,
        NativeColor::DarkYellow => 3,
        NativeColor::DarkBlue => 4,
        NativeColor::DarkMagenta => 5,
        NativeColor::DarkCyan => 6,
        NativeColor::Grey => 7,
        NativeColor::DarkGrey => 8,
        NativeColor::Red => 9,
        NativeColor::Green => 10,
        NativeColor::Yellow => 11,
        NativeColor::Blue => 12,
        NativeColor::Magenta => 13,
        NativeColor::Cyan => 14,
        NativeColor::White => 15,
        _ => {
            proof {
                assert(false);
            }
            0
        },
    }
}

/// Appends the selector of a non-reset color.
fn push_color_tail(v: &mut Vec<u8>, c: &NativeColor)
    requires
        !(*c is Reset),
    ensures
        final(v)@ == old(v)@ + color_tail_bytes(*c),
{
    match c {
        NativeColor::Ansi(n) => {
            v.push(53);
            v.push(59);
            push_dec(v, *n as u32);
        },
        NativeColor::Rgb(r, g, b) => {
            v.push(50);
            v.push(59);
            push_dec(v, *r as u32);
            v.push(59);
            push_dec(v, *g as u32);
            v.push(59);
            push_dec(v, *b as u32);
        },
        _ => {
            let k = ansi_index(c);
            v.push(53);
            v.push(59);
            push_dec(v, k as u32);
        },
    }
    proof {
        assert(v@ =~= old(v)@ + color_tail_bytes(*c));
    }
}

/// Builds the set-foreground-color command for a native color.
fn fg_command(c: &NativeColor) -> (v: Vec<u8>)
    ensures
        v@ == fg_color_bytes(*c),
{
    let mut v = csi_vec();
    match c {
        NativeColor::Reset => {
            v.push(51);
            v.push(57);
        },
        _ => {
            v.push(51);
            v.push(56);
            v.push(59);
            push_color_tail(&mut v, c);
        },
    }
    v.push(109);
    proof {
        assert(v@ =~= fg_color_bytes(*c));
    }
    v
}

/// Builds the set-background-color command for a native color.
fn bg_command(c: &NativeColor) -> (v: Vec<u8>)
    ensures
        v@ == bg_color_bytes(*c),
{
    let mut v = csi_vec();
    match c {
        NativeColor::Reset => {
            v.push(52);
            v.push(57);
        },
        _ => {
            v.push(52);
            v.push(56);
            v.push(59);
            push_color_tail(&mut v, c);
        },
    }
    v.push(109);
    proof {
        assert(v@ =~= bg_color_bytes(*c));
    }
    v
}

/// Decodes the wire color and queues the set-foreground-color command for
/// the native color it stands for.
pub fn crossterm_stream_set_foreground_color<S: StreamSink>(
    stream: &mut crossterm_stream<S>,
    color: &crossterm_color,
) -> (r: CrosstermResult)
    requires
        color_wf(*color),
    ensures
        queue_post(
            old(stream).accepted(),
            final(stream).accepted(),
            fg_color_bytes(decode_color_spec(*color)),
            r,
        ),
{
    let native = decode_color(color);
    let cmd = fg_command(&native);
    queue_bytes(stream, cmd.as_slice())
}

/// Decodes the wire color and queues the set-background-color command for
/// the native color it stands for.
pub fn crossterm_stream_set_background_color<S: StreamSink>(
    stream: &mut crossterm_stream<S>,
    color: &crossterm_color,
) -> (r: CrosstermResult)
    requires
        color_wf(*color),
    ensures
        queue_post(
            old(stream).accepted(),
            final(stream).accepted(),
            bg_color_bytes(decode_color_spec(*color)),
            r,
        ),
{
    let native = decode_color(color);
    let cmd = bg_command(&native);
    queue_bytes(stream, cmd.as_slice())
}

/// Queues the attribute command with the given Select-Graphic-Rendition
/// number.
fn queue_attribute<S: StreamSink>(stream: &mut crossterm_stream<S>, sgr: u32) -> (r:
    CrosstermResult)
    ensures
        queue_post(old(stream).accepted(), final(stream).accepted(), attribute_bytes(sgr as nat), r),
{
    let mut cmd = csi_vec();
    push_dec(&mut cmd, sgr);
    cmd.push(109);
    proof {
        assert(cmd@ =~= attribute_bytes(sgr as nat));
    }
    queue_bytes(stream, cmd.as_slice())
}

/// Queues the bold attribute (SGR `1`).
pub fn crossterm_stream_set_bold_attribute<S: StreamSink>(stream: &mut crossterm_stream<S>) -> (r:
    CrosstermResult)
    ensures
        queue_post(old(stream).accepted(), final(stream).accepted(), attribute_bytes(1), r),
{
    queue_attribute(stream, 1)
}

/// Queues the normal-intensity command (SGR `22`), clearing bold.  This is
/// the same command that resetting dim queues: the two resets are not
/// independent.
pub fn crossterm_stream_reset_bold_attribute<S: StreamSink>(stream: &mut crossterm_stream<S>) -> (
    r: CrosstermResult)
    ensures
        queue_post(old(stream).accepted(), final(stream).accepted(), attribute_bytes(22), r),
{
    queue_attribute(stream, 22)
}

/// Queues the dim attribute (SGR `2`).
pub fn crossterm_stream_set_dim_attribute<S: StreamSink>(stream: &mut crossterm_stream<S>) -> (r:
    CrosstermResult)
    ensures
        queue_post(old(stream).accepted(), final(stream).accepted(), attribute_bytes(2), r),
{
    queue_attribute(stream, 2)
}

/// Queues the normal-intensity command (SGR `22`), clearing dim.  This is
/// the same command that resetting bold queues: the two resets are not
/// independent.
pub fn crossterm_stream_reset_dim_attribute<S: StreamSink>(stream: &mut crossterm_stream<S>) -> (r:
    CrosstermResult)
    ensures
        queue_post(old(stream).accepted(), final(stream).accepted(), attribute_bytes(22), r),
{
    queue_attribute(stream, 22)
}

/// Queues the underline attribute (SGR `4`).
pub fn crossterm_stream_set_underlined_attribute<S: StreamSink>(
    stream: &mut crossterm_stream<S>,
) -> (r: CrosstermResult)
    ensures
        queue_post(old(stream).accepted(), final(stream).accepted(), attribute_bytes(4), r),
{
    queue_attribute(stream, 4)
}

/// Queues the no-underline command (SGR `24`).
pub fn crossterm_stream_reset_underlined_attribute<S: StreamSink>(
    stream: &mut crossterm_stream<S>,
) -> (r: CrosstermResult)
    ensures
        queue_post(old(stream).accepted(), final(stream).accepted(), attribute_bytes(24), r),
{
    queue_attribute(stream, 24)
}

/// Queues the reverse-video attribute (SGR `7`).
pub fn crossterm_stream_set_reverse_attribute<S: StreamSink>(stream: &mut crossterm_stream<S>) -> (
    r: CrosstermResult)
    ensures
        queue_post(old(stream).accepted(), final(stream).accepted(), attribute_bytes(7), r),
{
    queue_attribute(stream, 7)
}

/// Queues the no-reverse-video command (SGR `27`).
pub fn crossterm_stream_reset_reverse_attribute<S: StreamSink>(
    stream: &mut crossterm_stream<S>,
) -> (r: CrosstermResult)
    ensures
        queue_post(old(stream).accepted(), final(stream).accepted(), attribute_bytes(27), r),
{
    queue_attribute(stream, 27)
}

/// Queues the hidden attribute (SGR `8`).
pub fn crossterm_stream_set_hidden_attribute<S: StreamSink>(stream: &mut crossterm_stream<S>) -> (
    r: CrosstermResult)
    ensures
        queue_post(old(stream).accepted(), final(stream).accepted(), attribute_bytes(8), r),
{
    queue_attribute(stream, 8)
}

/// Queues the no-hidden command (SGR `28`).
pub fn crossterm_stream_reset_hidden_attribute<S: StreamSink>(stream: &mut crossterm_stream<S>) -> (
    r: CrosstermResult)
    ensures
        queue_post(old(stream).accepted(), final(stream).accepted(), attribute_bytes(28), r),
{
    queue_attribute(stream, 28)
}

/// Queues the reset-all-attributes command (SGR `0`).
pub fn crossterm_stream_reset_attributes<S: StreamSink>(stream: &mut crossterm_stream<S>) -> (r:
    CrosstermResult)
    ensures
        queue_post(old(stream).accepted(), final(stream).accepted(), attribute_bytes(0), r),
{
    queue_attribute(stream, 0)
}

} // verus!
