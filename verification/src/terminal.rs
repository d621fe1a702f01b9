//! Screen commands: clearing, scrolling, the alternate screen, and line
//! wrapping.
//!
//! Each operation encodes one screen command as its ANSI escape sequence and
//! queues it on the stream.  Scrolling by zero lines is a no-op that queues
//! nothing and still succeeds.

use vstd::prelude::*;

use crate::ansi::csi_prefix;
use crate::ansi::csi_vec;
use crate::ansi::dec_bytes;
use crate::ansi::push_dec;
use crate::error::CrosstermResult;
use crate::stream::crossterm_stream;
use crate::stream::queue_bytes;
use crate::stream::queue_post;
use crate::stream::StreamSink;

verus! {

/// A terminal size: width and height in cells.
#[allow(non_camel_case_types)]
#[derive(Debug, Clone, Copy, PartialEq, Eq, Structural)]
pub struct crossterm_size {
    pub width: u16,
    pub height: u16,
}

/// `ESC [ ? 1 0 4 9 h`: switch to the alternate screen buffer.
pub open spec fn enter_alternate_screen_bytes() -> Seq<u8> {
    seq![27u8, 91u8, 63u8, 49u8, 48u8, 52u8, 57u8, 104u8]
}

/// `ESC [ ? 1 0 4 9 l`: switch back to the main screen buffer.
pub open spec fn leave_alternate_screen_bytes() -> Seq<u8> {
    seq![27u8, 91u8, 63u8, 49u8, 48u8, 52u8, 57u8, 108u8]
}

/// `ESC [ ? 7 h`: enable line wrapping.
pub open spec fn enable_line_wrap_bytes() -> Seq<u8> {
    seq![27u8, 91u8, 63u8, 55u8, 104u8]
}

/// `ESC [ ? 7 l`: disable line wrapping.
pub open spec fn disable_line_wrap_bytes() -> Seq<u8> {
    seq![27u8, 91u8, 63u8, 55u8, 108u8]
}

/// `ESC [ <n> S`: scroll the screen up `n` lines.
pub open spec fn scroll_up_bytes(n: u16) -> Seq<u8> {
    csi_prefix() + dec_bytes(n as nat) + seq![83u8]
}

/// `ESC [ <n> T`: scroll the screen down `n` lines.
pub open spec fn scroll_down_bytes(n: u16) -> Seq<u8> {
    csi_prefix() + dec_bytes(n as nat) + seq![84u8]
}

/// `ESC [ 2 J`: clear the whole screen.
pub open spec fn clear_all_bytes() -> Seq<u8> {
    seq![27u8, 91u8, 50u8, 74u8]
}

/// `ESC [ 3 J`: clear the whole screen and the scrollback buffer.
pub open spec fn clear_purge_bytes() -> Seq<u8> {
    seq![27u8, 91u8, 51u8, 74u8]
}

/// `ESC [ 1 J`: clear from the cursor up to the start of the screen.
pub open spec fn clear_from_cursor_up_bytes() -> Seq<u8> {
    seq![27u8, 91u8, 49u8, 74u8]
}

/// `ESC [ J`: clear from the cursor down to the end of the screen.
pub open spec fn clear_from_cursor_down_bytes() -> Seq<u8> {
    seq![27u8, 91u8, 74u8]
}

/// `ESC [ 2 K`: clear the current line.
pub open spec fn clear_current_line_bytes() -> Seq<u8> {
    seq![27u8, 91u8, 50u8, 75u8]
}

/// `ESC [ K`: clear from the cursor to the end of the current line.
pub open spec fn clear_until_new_line_bytes() -> Seq<u8> {
    seq![27u8, 91u8, 75u8]
}

/// Queues the enter-alternate-screen command.
pub fn crossterm_enter_alternate_screen<S: StreamSink>(stream: &mut crossterm_stream<S>) -> (r:
    CrosstermResult)
    ensures
        queue_post(
            old(stream).accepted(),
            final(stream).accepted(),
            enter_alternate_screen_bytes(),
            r,
        ),
{
    let mut cmd = csi_vec();
    cmd.push(63);
    cmd.push(49);
    cmd.push(48);
    cmd.push(52);
    cmd.push(57);
    cmd.push(104);
    proof {
        assert(cmd@ =~= enter_alternate_screen_bytes());
    }
    queue_bytes(stream, cmd.as_slice())
}

/// Queues the leave-alternate-screen command.
pub fn crossterm_leave_alternate_screen<S: StreamSink>(stream: &mut crossterm_stream<S>) -> (r:
    CrosstermResult)
    ensures
        queue_post(
            old(stream).accepted(),
            final(stream).accepted(),
            leave_alternate_screen_bytes(),
            r,
        ),
{
    let mut cmd = csi_vec();
    cmd.push(63);
    cmd.push(49);
    cmd.push(48);
    cmd.push(52);
    cmd.push(57);
    cmd.push(108);
    proof {
        assert(cmd@ =~= leave_alternate_screen_bytes());
    }
    queue_bytes(stream, cmd.as_slice())
}

/// Queues the enable-line-wrap command.
pub fn crossterm_enable_line_wrap<S: StreamSink>(stream: &mut crossterm_stream<S>) -> (r:
    CrosstermResult)
    ensures
        queue_post(old(stream).accepted(), final(stream).accepted(), enable_line_wrap_bytes(), r),
{
    let mut cmd = csi_vec();
    cmd.push(63);
    cmd.push(55);
    cmd.push(104);
    proof {
        assert(cmd@ =~= enable_line_wrap_bytes());
    }
    queue_bytes(stream, cmd.as_slice())
}

/// Queues the disable-line-wrap command.
pub fn crossterm_disable_line_wrap<S: StreamSink>(stream: &mut crossterm_stream<S>) -> (r:
    CrosstermResult)
    ensures
        queue_post(old(stream).accepted(), final(stream).accepted(), disable_line_wrap_bytes(), r),
{
    let mut cmd = csi_vec();
    cmd.push(63);
    cmd.push(55);
    cmd.push(108);
    proof {
        assert(cmd@ =~= disable_line_wrap_bytes());
    }
    queue_bytes(stream, cmd.as_slice())
}

/// Queues a scroll of the screen up `nlines` lines.  Scrolling by zero is a
/// no-op that queues nothing and succeeds.
pub fn crossterm_scroll_up<S: StreamSink>(stream: &mut crossterm_stream<S>, nlines: u16) -> (r:
    CrosstermResult)
    ensures
        nlines == 0 ==> r is Ok && *final(stream) == *old(stream),
        nlines != 0 ==> queue_post(
            old(stream).accepted(),
            final(stream).accepted(),
            scroll_up_bytes(nlines),
            r,
        ),
{
    if nlines == 0 {
        return Ok(());
    }
    let mut cmd = csi_vec();
    push_dec(&mut cmd, nlines as u32);
    cmd.push(83);
    proof {
        assert(cmd@ =~= scroll_up_bytes(nlines));
    }
    queue_bytes(stream, cmd.as_slice())
}

/// Queues a scroll of the screen down `nlines` lines.  Scrolling by zero is
/// a no-op that queues nothing and succeeds.
pub fn crossterm_scroll_down<S: StreamSink>(stream: &mut crossterm_stream<S>, nlines: u16) -> (r:
    CrosstermResult)
    ensures
        nlines == 0 ==> r is Ok && *final(stream) == *old(stream),
        nlines != 0 ==> queue_post(
            old(stream).accepted(),
            final(stream).accepted(),
            scroll_down_bytes(nlines),
            r,
        ),
{
    if nlines == 0 {
        return Ok(());
    }
    let mut cmd = csi_vec();
    push_dec(&mut cmd, nlines as u32);
    cmd.push(84);
    proof {
        assert(cmd@ =~= scroll_down_bytes(nlines));
    }
    queue_bytes(stream, cmd.as_slice())
}

/// Queues the clear-whole-screen command.
pub fn crossterm_clear_all<S: StreamSink>(stream: &mut crossterm_stream<S>) -> (r: CrosstermResult)
    ensures
        queue_post(old(stream).accepted(), final(stream).accepted(), clear_all_bytes(), r),
{
    let mut cmd = csi_vec();
    cmd.push(50);
    cmd.push(74);
    proof {
        assert(cmd@ =~= clear_all_bytes());
    }
    queue_bytes(stream, cmd.as_slice())
}

/// Queues the clear-screen-and-scrollback command.
pub fn crossterm_clear_purge<S: StreamSink>(stream: &mut crossterm_stream<S>) -> (r:
    CrosstermResult)
    ensures
        queue_post(old(stream).accepted(), final(stream).accepted(), clear_purge_bytes(), r),
{
    let mut cmd = csi_vec();
    cmd.push(51);
    cmd.push(74);
    proof {
        assert(cmd@ =~= clear_purge_bytes());
    }
    queue_bytes(stream, cmd.as_slice())
}

/// Queues the clear-from-cursor-up command.
pub fn crossterm_clear_from_cursor_up<S: StreamSink>(stream: &mut crossterm_stream<S>) -> (r:
    CrosstermResult)
    ensures
        queue_post(
            old(stream).accepted(),
            final(stream).accepted(),
            clear_from_cursor_up_bytes(),
            r,
        ),
{
    let mut cmd = csi_vec();
    cmd.push(49);
    cmd.push(74);
    proof {
        assert(cmd@ =~= clear_from_cursor_up_bytes());
    }
    queue_bytes(stream, cmd.as_slice())
}

/// Queues the clear-from-cursor-down command.
pub fn crossterm_clear_from_cursor_down<S: StreamSink>(stream: &mut crossterm_stream<S>) -> (r:
    CrosstermResult)
    ensures
        queue_post(
            old(stream).accepted(),
            final(stream).accepted(),
            clear_from_cursor_down_bytes(),
            r,
        ),
{
    let mut cmd = csi_vec();
    cmd.push(74);
    proof {
        assert(cmd@ =~= clear_from_cursor_down_bytes());
    }
    queue_bytes(stream, cmd.as_slice())
}

/// Queues the clear-current-line command.
pub fn crossterm_clear_current_line<S: StreamSink>(stream: &mut crossterm_stream<S>) -> (r:
    CrosstermResult)
    ensures
        queue_post(old(stream).accepted(), final(stream).accepted(), clear_current_line_bytes(), r),
{
    let mut cmd = csi_vec();
    cmd.push(50);
    cmd.push(75);
    proof {
        assert(cmd@ =~= clear_current_line_bytes());
    }
    queue_bytes(stream, cmd.as_slice())
}

/// Queues the clear-until-new-line command.
pub fn crossterm_clear_until_new_line<S: StreamSink>(stream: &mut crossterm_stream<S>) -> (r:
    CrosstermResult)
    ensures
        queue_post(
            old(stream).accepted(),
            final(stream).accepted(),
            clear_until_new_line_bytes(),
            r,
        ),
{
    let mut cmd = csi_vec();
    cmd.push(75);
    proof {
        assert(cmd@ =~= clear_until_new_line_bytes());
    }
    queue_bytes(stream, cmd.as_slice())
}

} // verus!
