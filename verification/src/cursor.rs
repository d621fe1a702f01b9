//! Cursor commands: visibility, saved position, and movement.
//!
//! Each operation encodes one cursor command as its ANSI escape sequence and
//! queues it on the stream.  The directional movements are one-based: moving
//! by zero rows, columns or lines is a no-op that queues nothing and still
//! succeeds.  The absolute movements are zero-based; the escape sequences
//! for those carry the coordinate plus one, as the terminal counts from one.

use vstd::prelude::*;

use crate::ansi::csi_prefix;
use crate::ansi::csi_vec;
use crate::ansi::dec_bytes;
use crate::ansi::push_dec;
use crate::error::CrosstermResult;
use crate::stream::crossterm_stream;
use crate::stream::queue_bytes;
use crate::stream::queue_post;
use crate::stream::StreamSink;

verus! {

/// A cursor position: zero-based column `x` and row `y`.
#[allow(non_camel_case_types)]
#[derive(Debug, Clone, Copy, PartialEq, Eq, Structural)]
pub struct crossterm_cursor_positon {
    pub x: u16,
    pub y: u16,
}

/// `ESC [ ? 2 5 h`: make the cursor visible.
pub open spec fn show_cursor_bytes() -> Seq<u8> {
    seq![27u8, 91u8, 63u8, 50u8, 53u8, 104u8]
}

/// `ESC [ ? 2 5 l`: hide the cursor.
pub open spec fn hide_cursor_bytes() -> Seq<u8> {
    seq![27u8, 91u8, 63u8, 50u8, 53u8, 108u8]
}

/// `ESC 7`: save the cursor position.
pub open spec fn save_position_bytes() -> Seq<u8> {
    seq![27u8, 55u8]
}

/// `ESC 8`: restore the saved cursor position.
pub open spec fn restore_position_bytes() -> Seq<u8> {
    seq![27u8, 56u8]
}

/// `ESC [ <n> A`: move the cursor up `n` rows.
pub open spec fn move_up_bytes(n: u16) -> Seq<u8> {
    csi_prefix() + dec_bytes(n as nat) + seq![65u8]
}

/// `ESC [ <n> B`: move the cursor down `n` rows.
pub open spec fn move_down_bytes(n: u16) -> Seq<u8> {
    csi_prefix() + dec_bytes(n as nat) + seq![66u8]
}

/// `ESC [ <n> C`: move the cursor right `n` columns.
pub open spec fn move_right_bytes(n: u16) -> Seq<u8> {
    csi_prefix() + dec_bytes(n as nat) + seq![67u8]
}

/// `ESC [ <n> D`: move the cursor left `n` columns.
pub open spec fn move_left_bytes(n: u16) -> Seq<u8> {
    csi_prefix() + dec_bytes(n as nat) + seq![68u8]
}

/// `ESC [ <col+1> ; <row+1> H`: move the cursor to the given position.
pub open spec fn move_to_bytes(row: u16, col: u16) -> Seq<u8> {
    csi_prefix() + dec_bytes(col as nat + 1) + seq![59u8] + dec_bytes(row as nat + 1) + seq![72u8]
}

/// `ESC [ <row+1> d`: move the cursor to the given row.
pub open spec fn move_to_row_bytes(row: u16) -> Seq<u8> {
    csi_prefix() + dec_bytes(row as nat + 1) + seq![100u8]
}

/// `ESC [ <col+1> G`: move the cursor to the given column.
pub open spec fn move_to_col_bytes(col: u16) -> Seq<u8> {
    csi_prefix() + dec_bytes(col as nat + 1) + seq![71u8]
}

/// `ESC [ <n> E`: move the cursor to the start of the line `n` lines down.
pub open spec fn next_line_bytes(n: u16) -> Seq<u8> {
    csi_prefix() + dec_bytes(n as nat) + seq![69u8]
}

/// `ESC [ <n> F`: move the cursor to the start of the line `n` lines up.
pub open spec fn prev_line_bytes(n: u16) -> Seq<u8> {
    csi_prefix() + dec_bytes(n as nat) + seq![70u8]
}

/// Queues the show-cursor command.
pub fn crossterm_show_cursor<S: StreamSink>(stream: &mut crossterm_stream<S>) -> (r:
    CrosstermResult)
    ensures
        queue_post(old(stream).accepted(), final(stream).accepted(), show_cursor_bytes(), r),
{
    let mut cmd = csi_vec();
    cmd.push(63);
    cmd.push(50);
    cmd.push(53);
    cmd.push(104);
    proof {
        assert(cmd@ =~= show_cursor_bytes());
    }
    queue_bytes(stream, cmd.as_slice())
}

/// Queues the hide-cursor command.
pub fn crossterm_hide_cursor<S: StreamSink>(stream: &mut crossterm_stream<S>) -> (r:
    CrosstermResult)
    ensures
        queue_post(old(stream).accepted(), final(stream).accepted(), hide_cursor_bytes(), r),
{
    let mut cmd = csi_vec();
    cmd.push(63);
    cmd.push(50);
    cmd.push(53);
    cmd.push(108);
    proof {
        assert(cmd@ =~= hide_cursor_bytes());
    }
    queue_bytes(stream, cmd.as_slice())
}

/// Queues the save-cursor-position command.
pub fn crossterm_save_cursor_position<S: StreamSink>(stream: &mut crossterm_stream<S>) -> (r:
    CrosstermResult)
    ensures
        queue_post(old(stream).accepted(), final(stream).accepted(), save_position_bytes(), r),
{
    let mut cmd: Vec<u8> = Vec::new();
    cmd.push(27);
    cmd.push(55);
    proof {
        assert(cmd@ =~= save_position_bytes());
    }
    queue_bytes(stream, cmd.as_slice())
}

/// Queues the restore-cursor-position command.
pub fn crossterm_restore_cursor_position<S: StreamSink>(stream: &mut crossterm_stream<S>) -> (r:
    CrosstermResult)
    ensures
        queue_post(old(stream).accepted(), final(stream).accepted(), restore_position_bytes(), r),
{
    let mut cmd: Vec<u8> = Vec::new();
    cmd.push(27);
    cmd.push(56);
    proof {
        assert(cmd@ =~= restore_position_bytes());
    }
    queue_bytes(stream, cmd.as_slice())
}

/// Queues a move of the cursor up `nrows` rows.  Moving by zero is a no-op
/// that queues nothing and succeeds.
pub fn crossterm_move_cursor_up<S: StreamSink>(stream: &mut crossterm_stream<S>, nrows: u16) -> (r:
    CrosstermResult)
    ensures
        nrows == 0 ==> r is Ok && *final(stream) == *old(stream),
        nrows != 0 ==> queue_post(
            old(stream).accepted(),
            final(stream).accepted(),
            move_up_bytes(nrows),
            r,
        ),
{
    if nrows == 0 {
        return Ok(());
    }
    let mut cmd = csi_vec();
    push_dec(&mut cmd, nrows as u32);
    cmd.push(65);
    proof {
        assert(cmd@ =~= move_up_bytes(nrows));
    }
    queue_bytes(stream, cmd.as_slice())
}

/// Queues a move of the cursor down `nrows` rows.  Moving by zero is a no-op
/// that queues nothing and succeeds.
pub fn crossterm_move_cursor_down<S: StreamSink>(stream: &mut crossterm_stream<S>, nrows: u16) -> (
    r: CrosstermResult)
    ensures
        nrows == 0 ==> r is Ok && *final(stream) == *old(stream),
        nrows != 0 ==> queue_post(
            old(stream).accepted(),
            final(stream).accepted(),
            move_down_bytes(nrows),
            r,
        ),
{
    if nrows == 0 {
        return Ok(());
    }
    let mut cmd = csi_vec();
    push_dec(&mut cmd, nrows as u32);
    cmd.push(66);
    proof {
        assert(cmd@ =~= move_down_bytes(nrows));
    }
    queue_bytes(stream, cmd.as_slice())
}

/// Queues a move of the cursor left `ncols` columns.  Moving by zero is a
/// no-op that queues nothing and succeeds.
pub fn crossterm_move_cursor_left<S: StreamSink>(stream: &mut crossterm_stream<S>, ncols: u16) -> (
    r: CrosstermResult)
    ensures
        ncols == 0 ==> r is Ok && *final(stream) == *old(stream),
        ncols != 0 ==> queue_post(
            old(stream).accepted(),
            final(stream).accepted(),
            move_left_bytes(ncols),
            r,
        ),
{
    if ncols == 0 {
        return Ok(());
    }
    let mut cmd = csi_vec();
    push_dec(&mut cmd, ncols as u32);
    cmd.push(68);
    proof {
        assert(cmd@ =~= move_left_bytes(ncols));
    }
    queue_bytes(stream, cmd.as_slice())
}

/// Queues a move of the cursor right `ncols` columns.  Moving by zero is a
/// no-op that queues nothing and succeeds.
pub fn crossterm_move_cursor_right<S: StreamSink>(stream: &mut crossterm_stream<S>, ncols: u16) -> (
    r: CrosstermResult)
    ensures
        ncols == 0 ==> r is Ok && *final(stream) == *old(stream),
        ncols != 0 ==> queue_post(
            old(stream).accepted(),
            final(stream).accepted(),
            move_right_bytes(ncols),
            r,
        ),
{
    if ncols == 0 {
        return Ok(());
    }
    let mut cmd = csi_vec();
    push_dec(&mut cmd, ncols as u32);
    cmd.push(67);
    proof {
        assert(cmd@ =~= move_right_bytes(ncols));
    }
    queue_bytes(stream, cmd.as_slice())
}

/// Queues a move of the cursor to the given zero-based position.
pub fn crossterm_move_cursor_to<S: StreamSink>(
    stream: &mut crossterm_stream<S>,
    row: u16,
    col: u16,
) -> (r: CrosstermResult)
    ensures
        queue_post(old(stream).accepted(), final(stream).accepted(), move_to_bytes(row, col), r),
{
    let mut cmd = csi_vec();
    push_dec(&mut cmd, col as u32 + 1);
    cmd.push(59);
    push_dec(&mut cmd, row as u32 + 1);
    cmd.push(72);
    proof {
        assert(cmd@ =~= move_to_bytes(row, col));
    }
    queue_bytes(stream, cmd.as_slice())
}

/// Queues a move of the cursor to the given zero-based row.
pub fn crossterm_move_cursor_to_row<S: StreamSink>(stream: &mut crossterm_stream<S>, row: u16) -> (
    r: CrosstermResult)
    ensures
        queue_post(old(stream).accepted(), final(stream).accepted(), move_to_row_bytes(row), r),
{
    let mut cmd = csi_vec();
    push_dec(&mut cmd, row as u32 + 1);
    cmd.push(100);
    proof {
        assert(cmd@ =~= move_to_row_bytes(row));
    }
    queue_bytes(stream, cmd.as_slice())
}

/// Queues a move of the cursor to the given zero-based column.
pub fn crossterm_move_cursor_to_col<S: StreamSink>(stream: &mut crossterm_stream<S>, col: u16) -> (
    r: CrosstermResult)
    ensures
        queue_post(old(stream).accepted(), final(stream).accepted(), move_to_col_bytes(col), r),
{
    let mut cmd = csi_vec();
    push_dec(&mut cmd, col as u32 + 1);
    cmd.push(71);
    proof {
        assert(cmd@ =~= move_to_col_bytes(col));
    }
    queue_bytes(stream, cmd.as_slice())
}

/// Queues a move of the cursor to the start of the line `nlines` lines down.
/// Moving by zero lines is a no-op that queues nothing and succeeds.
pub fn crossterm_move_cursor_to_next_line<S: StreamSink>(
    stream: &mut crossterm_stream<S>,
    nlines: u16,
) -> (r: CrosstermResult)
    ensures
        nlines == 0 ==> r is Ok && *final(stream) == *old(stream),
        nlines != 0 ==> queue_post(
            old(stream).accepted(),
            final(stream).accepted(),
            next_line_bytes(nlines),
            r,
        ),
{
    if nlines == 0 {
        return Ok(());
    }
    let mut cmd = csi_vec();
    push_dec(&mut cmd, nlines as u32);
    cmd.push(69);
    proof {
        assert(cmd@ =~= next_line_bytes(nlines));
    }
    queue_bytes(stream, cmd.as_slice())
}

/// Queues a move of the cursor to the start of the line `nlines` lines up.
/// Moving by zero lines is a no-op that queues nothing and succeeds.
pub fn crossterm_move_cursor_to_previous_line<S: StreamSink>(
    stream: &mut crossterm_stream<S>,
    nlines: u16,
) -> (r: CrosstermResult)
    ensures
        nlines == 0 ==> r is Ok && *final(stream) == *old(stream),
        nlines != 0 ==> queue_post(
            old(stream).accepted(),
            final(stream).accepted(),
            prev_line_bytes(nlines),
            r,
        ),
{
    if nlines == 0 {
        return Ok(());
    }
    let mut cmd = csi_vec();
    push_dec(&mut cmd, nlines as u32);
    cmd.push(70);
    proof {
        assert(cmd@ =~= prev_line_bytes(nlines));
    }
    queue_bytes(stream, cmd.as_slice())
}

} // verus!
