//! The byte transport of a connected pipe, modeled exactly: the bytes in
//! flight in one direction, oldest first.
//!
//! A stream's `read` and `write` pass through to the OS handle's
//! non-blocking operations; this type states what those operations do to
//! the bytes between the two ends, so that the round-trip guarantee —
//! bytes come back unmodified, in order and none lost — is a theorem
//! rather than a hope.  Each direction of a connected pair is one channel:
//! what the client end writes is what the server end reads.

use vstd::prelude::*;
use crate::error::IoError;
use crate::error::IoErrorKind;

verus! {

/// The fixed per-direction buffer capacity of a pipe instance, in bytes.
/// A policy of this crate, not a tunable.
pub const PIPE_BUFFER_SIZE: usize = 65536;

/// What a channel is mathematically: the bytes in flight, oldest first,
/// and whether the writing end has been shut down.
pub struct ChannelView {
    pub data: Seq<u8>,
    pub write_closed: bool,
}

/// One direction of a connected pipe: a bounded byte queue with
/// non-blocking reads and writes and a graceful write-side shutdown.
#[derive(Debug)]
pub struct PipeChannel {
    data: Vec<u8>,
    write_closed: bool,
}

impl View for PipeChannel {
    type V = ChannelView;

    closed spec fn view(&self) -> ChannelView {
        ChannelView { data: self.data@, write_closed: self.write_closed }
    }
}

impl PipeChannel {
    /// Well-formed: the bytes in flight fit the instance's buffer.
    pub open spec fn wf(self) -> bool {
        self@.data.len() <= PIPE_BUFFER_SIZE
    }

    /// An empty, open channel.
    pub fn new() -> (c: PipeChannel)
        ensures
            c.wf(),
            c@.data.len() == 0,
            !c@.write_closed,
    {
        PipeChannel { data: Vec::new(), write_closed: false }
    }

    /// The number of bytes in flight.
    pub fn len(&self) -> (r: usize)
        ensures
            r == self@.data.len(),
    {
        self.data.len()
    }

    /// Whether the writing end has been shut down.
    pub fn is_write_closed(&self) -> (r: bool)
        ensures
            r == self@.write_closed,
    {
        self.write_closed
    }

    /// Non-blocking write: appends as much of `buf` as the buffer has room
    /// for, in order, and returns how many bytes went in.  A full buffer
    /// reports would-block — a suspension for the caller, not a failure —
    /// and a shut-down write side reports a broken pipe.  Nothing already
    /// in flight is disturbed.
    pub fn write(&mut self, buf: &[u8]) -> (r: Result<usize, IoError>)
        requires
            old(self).wf(),
        ensures
            final(self).wf(),
            final(self)@.write_closed == old(self)@.write_closed,
            (old(self)@.write_closed ==> (r matches Err(e) && e == (IoError {
                kind: IoErrorKind::BrokenPipe,
                code: 0,
            }) && final(self)@.data == old(self)@.data)),
            (!old(self)@.write_closed && buf@.len() == 0 ==> (r matches Ok(n) && n == 0
                && final(self)@.data == old(self)@.data)),
            (!old(self)@.write_closed && buf@.len() > 0 && old(self)@.data.len()
                == PIPE_BUFFER_SIZE ==> (r matches Err(e) && e == (IoError {
                kind: IoErrorKind::WouldBlock,
                code: 0,
            }) && final(self)@.data == old(self)@.data)),
            (!old(self)@.write_closed && buf@.len() > 0 && old(self)@.data.len()
                < PIPE_BUFFER_SIZE ==> ({
                let room = PIPE_BUFFER_SIZE - old(self)@.data.len();
                let n = if buf@.len() <= room {
                    buf@.len() as int
                } else {
                    room as int
                };
                r matches Ok(m) && m == n && final(self)@.data == old(self)@.data
                    + buf@.take(n)
            })),
    {
        if self.write_closed {
            return Err(IoError { kind: IoErrorKind::BrokenPipe, code: 0 });
        }
        if buf.len() == 0 {
            return Ok(0);
        }
        let room = PIPE_BUFFER_SIZE - self.data.len();
        if room == 0 {
            return Err(IoError { kind: IoErrorKind::WouldBlock, code: 0 });
        }
        let n = if buf.len() <= room {
            buf.len()
        } else {
            room
        };
        let mut i: usize = 0;
        proof {
            assert(self@.data =~= old(self)@.data + buf@.take(0));
        }
        while i < n
            invariant
                i <= n,
                n <= buf@.len(),
                old(self)@.data.len() + n <= PIPE_BUFFER_SIZE,
                self@.data == old(self)@.data + buf@.take(i as int),
                self@.write_closed == old(self)@.write_closed,
            decreases n - i,
        {
            let b = buf[i];
            self.data.push(b);
            proof {
                assert(self@.data =~= old(self)@.data + buf@.take(i as int + 1));
            }
            i = i + 1;
        }
        Ok(n)
    }

    /// Non-blocking read: removes and returns the oldest bytes, at most
    /// `max` of them.  An empty channel reports would-block while the
    /// write side is open, and end-of-stream — an empty result — once it
    /// is shut down and drained.
    pub fn read(&mut self, max: usize) -> (r: Result<Vec<u8>, IoError>)
        requires
            old(self).wf(),
        ensures
            final(self).wf(),
            final(self)@.write_closed == old(self)@.write_closed,
            (old(self)@.data.len() == 0 && !old(self)@.write_closed ==> (r matches Err(e) && e
                == (IoError { kind: IoErrorKind::WouldBlock, code: 0 })
                && final(self)@.data == old(self)@.data)),
            (old(self)@.data.len() == 0 && old(self)@.write_closed ==> (r matches Ok(v) && v@.len()
                == 0 && final(self)@.data == old(self)@.data)),
            (old(self)@.data.len() > 0 ==> ({
                let n = if max <= old(self)@.data.len() {
                    max as int
                } else {
                    old(self)@.data.len() as int
                };
                r matches Ok(v) && v@ == old(self)@.data.take(n) && final(self)@.data == old(self)@.data.skip(n)
            })),
    {
        if self.data.len() == 0 {
            if self.write_closed {
                return Ok(Vec::new());
            }
            return Err(IoError { kind: IoErrorKind::WouldBlock, code: 0 });
        }
        let n = if max <= self.data.len() {
            max
        } else {
            self.data.len()
        };
        let mut out: Vec<u8> = Vec::new();
        let mut i: usize = 0;
        proof {
            assert(out@ =~= self@.data.take(0));
        }
        while i < n
            invariant
                i <= n,
                n <= self@.data.len(),
                out@ == self@.data.take(i as int),
                self@ == old(self)@,
            decreases n - i,
        {
            let b = self.data[i];
            out.push(b);
            proof {
                assert(out@ =~= self@.data.take(i as int + 1));
            }
            i = i + 1;
        }
        let mut rest: Vec<u8> = Vec::new();
        let mut j: usize = n;
        proof {
            assert(rest@ =~= self@.data.subrange(n as int, n as int));
        }
        while j < self.data.len()
            invariant
                n <= j && j <= self@.data.len(),
                rest@ == self@.data.subrange(n as int, j as int),
                self@ == old(self)@,
            decreases self@.data.len() - j,
        {
            let b = self.data[j];
            rest.push(b);
            proof {
                assert(rest@ =~= self@.data.subrange(n as int, j as int + 1));
            }
            j = j + 1;
        }
        proof {
            assert(rest@ =~= self@.data.skip(n as int));
        }
        self.data = rest;
        Ok(out)
    }

    /// Graceful shutdown of the write direction: no further bytes go in,
    /// the bytes already in flight stay readable, and once they are
    /// drained the reading end sees end-of-stream instead of would-block.
    /// The handle itself stays open for reading.
    pub fn shutdown(&mut self)
        ensures
            final(self)@.data == old(self)@.data,
            final(self)@.write_closed,
    {
        self.write_closed = true;
    }
}

/// Round trip: appending written bytes to the bytes in flight preserves
/// them exactly — same length, same content, same order, behind what was
/// already in flight.  With `write` appending and `read` taking from the
/// front, every byte written to a connected end comes back at the other
/// end unmodified and in order.
pub proof fn lemma_round_trip(in_flight: Seq<u8>, written: Seq<u8>)
    ensures
        (in_flight + written).len() == in_flight.len() + written.len(),
        (in_flight + written).skip(in_flight.len() as int) == written,
        (in_flight + written).take(in_flight.len() as int) == in_flight,
{
    assert((in_flight + written).skip(in_flight.len() as int) =~= written);
    assert((in_flight + written).take(in_flight.len() as int) =~= in_flight);
}

} // verus!
