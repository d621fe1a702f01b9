//! The output stream abstraction: a writable, flushable sink supplied by the
//! caller, through which every terminal command is queued.
//!
//! A sink is anything implementing [`StreamSink`]: a write callback that may
//! perform a short write and reports failure as a negative return, and a
//! flush callback that reports failure as a non-zero return.  The queuing
//! layer repeatedly hands the remaining bytes to the write callback until the
//! whole command has been accepted or the callback fails; a failure is
//! surfaced at once, with the callback's negated return published as the
//! platform error number.

use vstd::prelude::*;
use vstd::slice::slice_index_get;
use vstd::slice::slice_subrange;

use crate::error::crossterm_error;
use crate::error::crossterm_stream_error;
use crate::error::stream_error_wf;
use crate::error::CrosstermResult;

verus! {

/// A caller-supplied output destination.
///
/// `accepted` is the model of the sink: the bytes it has taken so far, in
/// order.  The two methods state the callback convention of the boundary;
/// an implementation wrapping foreign callbacks must only hand back returns
/// that keep to it (a non-negative return no larger than the buffer means
/// that prefix was taken, a negative return means failure and nothing was
/// taken).
pub trait StreamSink: Sized {
    /// The bytes this sink has accepted so far.  This is the ghost model of
    /// the sink; an implementation that tracks its bytes overrides it, and
    /// one that does not may leave the default, under which nothing is known
    /// of what it holds.
    open spec fn accepted(&self) -> Seq<u8> {
        Seq::empty()
    }

    /// Writes a prefix of `buf`, yielding how many bytes were taken, or a
    /// negative error number.
    fn write(&mut self, buf: &[u8]) -> (r: i64)
        ensures
            r >= 0 ==> r as int <= buf@.len() && final(self).accepted() == old(self).accepted()
                + buf@.subrange(0, r as int),
            r < 0 ==> final(self).accepted() == old(self).accepted(),
    ;

    /// Delivers whatever the sink has buffered, yielding zero on success or
    /// a non-zero error value.  Flushing accepts no new bytes.
    fn flush(&mut self) -> (r: i32)
        ensures
            final(self).accepted() == old(self).accepted(),
    ;
}

/// An output stream: the handle every queuing operation writes through.
#[allow(non_camel_case_types)]
pub struct crossterm_stream<S: StreamSink> {
    pub sink: S,
}

impl<S: StreamSink> crossterm_stream<S> {
    /// The bytes this stream has handed to its sink so far.
    pub open spec fn accepted(&self) -> Seq<u8> {
        self.sink.accepted()
    }

    /// Wraps a sink as a stream.
    pub fn new(sink: S) -> (r: Self)
        ensures
            r.sink == sink,
    {
        crossterm_stream { sink }
    }
}

/// How the sink contents and the result of a queuing operation relate to the
/// command bytes `cmd` it set out to queue: on success the sink accepted
/// exactly `cmd` beyond what it already held; on failure it accepted only a
/// proper prefix of `cmd` (never the whole command), and the error is a
/// well-formed stream failure — the stream-error kind with the positive
/// error number the callback signalled, or the undefined kind for a write
/// that accepted nothing.
pub open spec fn queue_post(
    pre: Seq<u8>,
    post: Seq<u8>,
    cmd: Seq<u8>,
    r: CrosstermResult,
) -> bool {
    match r {
        Ok(()) => post == pre + cmd,
        Err(e) => {
            &&& stream_error_wf(e)
            &&& (e.kind == crossterm_error::CROSSTERM_EOTHER || e.kind
                == crossterm_error::CROSSTERM_EUNDEF)
            &&& (e.kind == crossterm_error::CROSSTERM_EOTHER ==> e.errno > 0)
            &&& exists|k: int| 0 <= k < cmd.len() && post == pre + cmd.subrange(0, k)
        },
    }
}

/// The platform error number published for a callback return of `ret`: its
/// negation, saturated to the largest representable number in the rare case
/// the negation does not fit in 32 bits.
pub open spec fn published_errno(ret: int) -> int {
    if -ret > 0x7fff_ffff {
        0x7fff_ffff
    } else {
        -ret
    }
}

/// The failure surfaced when the write callback reports an error: the
/// stream-error kind, publishing the callback's negated return as the
/// platform error number.
pub fn write_failure(ret: i64) -> (e: crossterm_stream_error)
    requires
        ret < 0,
    ensures
        e.kind == crossterm_error::CROSSTERM_EOTHER,
        e.errno == published_errno(ret as int),
        stream_error_wf(e),
{
    let errno: i32 = if ret < -0x7fff_ffff {
        0x7fff_ffff
    } else {
        (-ret) as i32
    };
    crossterm_stream_error { kind: crossterm_error::CROSSTERM_EOTHER, errno }
}

/// The failure surfaced when the write callback accepts nothing at all: the
/// undefined kind, publishing no error number, mirroring the platform's
/// write-zero failure.
pub fn write_zero_failure() -> (e: crossterm_stream_error)
    ensures
        e.kind == crossterm_error::CROSSTERM_EUNDEF,
        e.errno == 0,
        stream_error_wf(e),
{
    crossterm_stream_error { kind: crossterm_error::CROSSTERM_EUNDEF, errno: 0 }
}

/// Translates the flush callback's return into an operation outcome: zero is
/// success; anything else is the stream-error kind, publishing the negated
/// return as the platform error number.
pub fn flush_result(ret: i32) -> (r: CrosstermResult)
    ensures
        ret == 0 <==> r is Ok,
        ret != 0 ==> (r matches Err(e) && e.kind == crossterm_error::CROSSTERM_EOTHER && e.errno
            == published_errno(ret as int)),
{
    if ret == 0 {
        Ok(())
    } else {
        let errno: i32 = if ret == i32::MIN {
            0x7fff_ffff
        } else {
            -ret
        };
        Err(crossterm_stream_error { kind: crossterm_error::CROSSTERM_EOTHER, errno })
    }
}

/// Queues `cmd` on the stream: hands the bytes to the write callback,
/// resuming after short writes, until all of `cmd` is accepted or the
/// callback fails.
pub fn queue_bytes<S: StreamSink>(stream: &mut crossterm_stream<S>, cmd: &[u8]) -> (r:
    CrosstermResult)
    ensures
        queue_post(old(stream).accepted(), final(stream).accepted(), cmd@, r),
{
    let mut i: usize = 0;
    while i < cmd.len()
        invariant
            i <= cmd@.len(),
            stream.accepted() == old(stream).accepted() + cmd@.subrange(0, i as int),
        decreases cmd@.len() - i,
    {
        let rest = slice_subrange(cmd, i, cmd.len());
        let ret = stream.sink.write(rest);
        if ret < 0 {
            return Err(write_failure(ret));
        }
        if ret == 0 {
            return Err(write_zero_failure());
        }
        let taken = ret as usize;
        proof {
            assert(cmd@.subrange(i as int, cmd@.len() as int).subrange(0, ret as int)
                =~= cmd@.subrange(i as int, i + ret));
            assert(cmd@.subrange(0, i as int) + cmd@.subrange(i as int, i + ret)
                =~= cmd@.subrange(0, i + ret));
        }
        i = i + taken;
    }
    proof {
        assert(cmd@.subrange(0, cmd@.len() as int) =~= cmd@);
    }
    Ok(())
}

/// Flushes the stream: invokes the flush callback and translates its return.
/// A zero return from the callback yields success; a non-zero return yields
/// the stream-error status with the negated return published as the platform
/// error number.  Flushing queues no bytes.
pub fn crossterm_stream_flush<S: StreamSink>(stream: &mut crossterm_stream<S>) -> (r:
    CrosstermResult)
    ensures
        final(stream).accepted() == old(stream).accepted(),
        r matches Err(e) ==> e.kind == crossterm_error::CROSSTERM_EOTHER && stream_error_wf(e),
{
    let ret = stream.sink.flush();
    flush_result(ret)
}

/// A sink that buffers everything in memory: the library's own reference
/// implementation of [`StreamSink`], accepting every byte it is handed.
pub struct BufferSink {
    pub data: Vec<u8>,
}

impl BufferSink {
    /// An empty buffer sink.
    pub fn new() -> (r: BufferSink)
        ensures
            r.data@ == Seq::<u8>::empty(),
    {
        BufferSink { data: Vec::new() }
    }
}

impl StreamSink for BufferSink {
    open spec fn accepted(&self) -> Seq<u8> {
        self.data@
    }

    fn write(&mut self, buf: &[u8]) -> (r: i64) {
        let n: usize = if buf.len() > 0x7fff_ffff {
            0x7fff_ffff
        } else {
            buf.len()
        };
        let mut j: usize = 0;
        while j < n
            invariant
                j <= n,
                n <= buf@.len(),
                self.data@ == old(self).data@ + buf@.subrange(0, j as int),
            decreases n - j,
        {
            let b = *slice_index_get(buf, j);
            self.data.push(b);
            proof {
                assert(old(self).data@ + buf@.subrange(0, j as int) + seq![buf@[j as int]]
                    =~= old(self).data@ + buf@.subrange(0, j + 1));
            }
            j = j + 1;
        }
        n as i64
    }

    fn flush(&mut self) -> (r: i32) {
        0
    }
}

} // verus!
