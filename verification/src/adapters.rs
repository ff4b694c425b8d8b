//! Adapters that build one form of seeking out of what a stream offers.

use vstd::prelude::*;

use crate::seek_forward::{
    advanced, lemma_advanced_exact, SeekAbsolute, SeekBackward, SeekEnd, SeekForward, SeekRewind,
    StreamPosition, Tell,
};
use crate::consume::consume_within_buffer;
use crate::std_io::{
    copy_to_sink, copy_repeated, fill_from, flush_stream, read_into, write_from,
};

verus! {

/// A forward seeking wrapper around a `Read` type.
pub struct SeekForwardRead<T> {
    inner: T,
    ran_out: Ghost<bool>,
}

/// A forward seeking wrapper around a `Write` type.
pub struct SeekForwardWrite<T> {
    inner: T,
    sent: Ghost<Seq<u8>>,
}

/// An absolute seeking wrapper around a `Tell + SeekForward + SeekRewind` type.
pub struct SeekAbsoluteRewind<T> {
    inner: T,
}

impl<T: StreamPosition> StreamPosition for SeekForwardRead<T> {
    /// The position of the wrapped stream.
    closed spec fn position(&self) -> u64 {
        self.inner.position()
    }
}

/// How many bytes a forward seek by `offset` moves through the stream:
/// none for a zero offset, `offset` otherwise.
pub open spec fn skip_count(offset: u64) -> Option<u64> {
    if offset == 0 {
        None
    } else {
        Some(offset)
    }
}

/// How many bytes a forward seek by `offset` reads or writes.
pub fn forward_skip(offset: u64) -> (c: Option<u64>)
    ensures
        c == skip_count(offset),
{
    if offset == 0 {
        None
    } else {
        Some(offset)
    }
}

/// What a forward seek by writing writes: `count` zero bytes, as the byte
/// and the number of its copies.
pub fn zero_fill(count: u64) -> (f: (u8, u64))
    ensures
        f == (0u8, count),
{
    (0u8, count)
}

impl<T> SeekForwardRead<T> {
    /// The wrapped stream.
    pub closed spec fn inner(&self) -> T {
        self.inner
    }

    /// Whether the last forward seek stopped short of the bytes it asked
    /// for, which reading does only at the end of the stream.
    pub closed spec fn ran_out(&self) -> bool {
        self.ran_out@
    }

    /// Creates a new `SeekForwardRead`.
    pub fn new(inner: T) -> (r: Self)
        ensures
            r.inner() == inner,
            !r.ran_out(),
    {
        SeekForwardRead { inner: inner, ran_out: Ghost(false) }
    }
}

impl<T: std::io::Read> SeekForwardRead<T> {
    /// Seeks forward by reading and discarding up to `offset` bytes: the
    /// `forward_skip` count of bytes is copied from the stream into a sink.
    ///
    /// Returns the number of bytes skipped: `offset`, or fewer exactly when
    /// the stream ends first (`ran_out`). A zero offset reads nothing.
    pub fn seek_forward(&mut self, offset: u64) -> (r: Result<u64, std::io::Error>)
        ensures
            r matches Ok(n) ==> n <= offset,
            offset > 0 ==> (r matches Ok(n) ==> (final(self).ran_out() <==> n < offset)),
            offset == 0 ==> r == Ok::<u64, std::io::Error>(0),
            offset == 0 ==> *final(self) == *old(self),
    {
        match forward_skip(offset) {
            None => Ok(0),
            Some(limit) => match copy_to_sink(&mut self.inner, limit) {
                Ok((n, asked)) => {
                    self.ran_out = Ghost(n < asked);
                    Ok(n)
                },
                Err(e) => Err(e),
            },
        }
    }
}

impl<T: StreamPosition> StreamPosition for SeekForwardWrite<T> {
    /// The position of the wrapped stream.
    closed spec fn position(&self) -> u64 {
        self.inner.position()
    }
}

impl<T> SeekForwardWrite<T> {
    /// The wrapped stream.
    pub closed spec fn inner(&self) -> T {
        self.inner
    }

    /// The bytes that the wrapped stream has accepted through this wrapper:
    /// what its successful writes and forward seeks handed over.
    pub closed spec fn sent(&self) -> Seq<u8> {
        self.sent@
    }

    /// Creates a new `SeekForwardWrite`.
    pub fn new(inner: T) -> (r: Self)
        ensures
            r.inner() == inner,
            r.sent() == Seq::<u8>::empty(),
    {
        SeekForwardWrite { inner: inner, sent: Ghost(Seq::empty()) }
    }
}

impl<T: std::io::Write> SeekForwardWrite<T> {
    /// Seeks forward by writing `offset` zero bytes: the `zero_fill` of the
    /// `forward_skip` count is copied into the stream.
    ///
    /// Returns the number of bytes skipped, which on success is `offset`,
    /// after the stream accepted `offset` zero bytes. A zero offset writes
    /// nothing.
    pub fn seek_forward(&mut self, offset: u64) -> (r: Result<u64, std::io::Error>)
        ensures
            r matches Ok(n) ==> n == offset && final(self).sent() == old(self).sent() + Seq::new(
                offset as nat,
                |i: int| 0u8,
            ),
            r is Err ==> final(self).sent() == old(self).sent(),
            offset == 0 ==> r == Ok::<u64, std::io::Error>(0),
            offset == 0 ==> *final(self) == *old(self),
    {
        match forward_skip(offset) {
            None => Ok(0),
            Some(count) => {
                let (byte, count) = zero_fill(count);
                match copy_repeated(&mut self.inner, byte, count) {
                    Ok((n, sent)) => {
                        self.sent = Ghost(self.sent@ + Seq::new(n as nat, |i: int| sent));
                        Ok(n)
                    },
                    Err(e) => Err(e),
                }
            },
        }
    }
}

impl<T: StreamPosition> StreamPosition for SeekAbsoluteRewind<T> {
    /// The position of the wrapped stream.
    closed spec fn position(&self) -> u64 {
        self.inner.position()
    }
}

impl<T> SeekAbsoluteRewind<T> {
    /// The wrapped stream.
    pub closed spec fn inner(&self) -> T {
        self.inner
    }

    /// Creates a new `SeekAbsoluteRewind`.
    pub fn new(inner: T) -> (r: Self)
        ensures
            r.inner() == inner,
    {
        SeekAbsoluteRewind { inner: inner }
    }
}

/// Where an absolute seek to `pos` starts its forward seek from, for a
/// stream now at `tell`: the start of the stream when the stream is already
/// past `pos`, and where it is otherwise.
pub open spec fn absolute_seek_start(pos: u64, tell: u64) -> u64 {
    if tell > pos {
        0
    } else {
        tell
    }
}

/// The steps of an absolute seek to `pos` for a stream now at `tell`:
/// whether to rewind first, and how far to seek forward afterwards so that
/// the stream ends at `pos`.
pub fn absolute_seek_steps(pos: u64, tell: u64) -> (r: (bool, u64))
    ensures
        r.0 == (tell > pos),
        absolute_seek_start(pos, tell) + r.1 == pos,
{
    if tell > pos {
        (true, pos)
    } else {
        (false, pos - tell)
    }
}

/// Where an absolute seek to `pos` from a stream at `tell` lands when its
/// forward seek skips `skipped` bytes: the start of the forward seek plus
/// the bytes skipped. That is `pos` when every byte asked for is skipped,
/// and short of `pos` when the stream ends first.
pub fn absolute_seek_landing(pos: u64, tell: u64, skipped: u64) -> (p: u64)
    requires
        skipped <= pos - absolute_seek_start(pos, tell),
    ensures
        p == absolute_seek_start(pos, tell) + skipped,
        p <= pos,
        p == pos <==> skipped == pos - absolute_seek_start(pos, tell),
{
    if tell > pos {
        skipped
    } else {
        tell + skipped
    }
}

impl<T: Tell + SeekForward + SeekRewind> SeekAbsolute for SeekAbsoluteRewind<T> {
    /// Seeks to `pos`: a seek to the start is a rewind; otherwise the stream
    /// tells its position, rewinds when it is already past `pos`, and seeks
    /// forward by the rest (see `absolute_seek_steps`).
    ///
    /// Returns the position reached (see `absolute_seek_landing`): `pos`
    /// itself unless the stream ended first. A stream already at `pos` stays
    /// there.
    fn seek_absolute(&mut self, pos: u64) -> (r: Result<u64, std::io::Error>)
        ensures
            pos == 0 ==> (r matches Ok(p) ==> p == 0),
            old(self).position() == pos ==> (r matches Ok(p) ==> p == pos),
            old(self).position() <= pos ==> (r matches Ok(p) ==> old(self).position() <= p),
            r matches Ok(p) ==> p == pos || final(self).inner().at_end(),
    {
        if pos == 0 {
            return match self.inner.seek_rewind() {
                Ok(()) => Ok(0),
                Err(e) => Err(e),
            };
        }
        let tell = self.inner.tell()?;
        let (rewind, diff) = absolute_seek_steps(pos, tell);
        if rewind {
            self.inner.seek_rewind()?;
        }
        match self.inner.seek_forward(diff) {
            Ok(skipped) => {
                let p = absolute_seek_landing(pos, tell, skipped);
                proof {
                    lemma_advanced_exact(absolute_seek_start(pos, tell), skipped as nat);
                }
                Ok(p)
            },
            Err(e) => Err(e),
        }
    }
}

// Capabilities of the wrapped stream that `SeekForwardRead` passes through unchanged.

impl<T: Tell> Tell for SeekForwardRead<T> {
    fn tell(&mut self) -> (r: Result<u64, std::io::Error>) {
        self.inner.tell()
    }
}

impl<T: SeekRewind> SeekRewind for SeekForwardRead<T> {
    fn seek_rewind(&mut self) -> (r: Result<(), std::io::Error>) {
        self.inner.seek_rewind()
    }
}

impl<T: SeekAbsolute> SeekAbsolute for SeekForwardRead<T> {
    fn seek_absolute(&mut self, pos: u64) -> (r: Result<u64, std::io::Error>) {
        self.inner.seek_absolute(pos)
    }
}

impl<T: SeekEnd> SeekEnd for SeekForwardRead<T> {
    fn seek_end(&mut self, offset: i64) -> (r: Result<u64, std::io::Error>) {
        self.inner.seek_end(offset)
    }
}

impl<T: SeekBackward> SeekBackward for SeekForwardRead<T> {
    fn seek_backward(&mut self, offset: u64) -> (r: Result<u64, std::io::Error>) {
        self.inner.seek_backward(offset)
    }
}

impl<T: std::io::Write> std::io::Write for SeekForwardRead<T> {
    fn write(&mut self, buf: &[u8]) -> (r: Result<usize, std::io::Error>)
        ensures
            r matches Ok(n) ==> n <= buf@.len(),
    {
        write_from(&mut self.inner, buf)
    }

    fn flush(&mut self) -> (r: Result<(), std::io::Error>) {
        flush_stream(&mut self.inner)
    }
}

impl<T: std::io::Read> std::io::Read for SeekForwardRead<T> {
    fn read(&mut self, buf: &mut [u8]) -> (r: Result<usize, std::io::Error>)
        ensures
            r matches Ok(n) ==> n <= old(buf)@.len(),
    {
        read_into(&mut self.inner, buf)
    }
}

impl<T: std::io::BufRead> std::io::BufRead for SeekForwardRead<T> {
    fn fill_buf(&mut self) -> (r: Result<&[u8], std::io::Error>) {
        fill_from(&mut self.inner)
    }

    fn consume(&mut self, amt: usize) {
        consume_within_buffer(&mut self.inner, amt);
    }
}

// Capabilities of the wrapped stream that `SeekForwardWrite` passes through unchanged.

impl<T: Tell> Tell for SeekForwardWrite<T> {
    fn tell(&mut self) -> (r: Result<u64, std::io::Error>) {
        self.inner.tell()
    }
}

impl<T: SeekRewind> SeekRewind for SeekForwardWrite<T> {
    fn seek_rewind(&mut self) -> (r: Result<(), std::io::Error>) {
        self.inner.seek_rewind()
    }
}

impl<T: SeekAbsolute> SeekAbsolute for SeekForwardWrite<T> {
    fn seek_absolute(&mut self, pos: u64) -> (r: Result<u64, std::io::Error>) {
        self.inner.seek_absolute(pos)
    }
}

impl<T: SeekEnd> SeekEnd for SeekForwardWrite<T> {
    fn seek_end(&mut self, offset: i64) -> (r: Result<u64, std::io::Error>) {
        self.inner.seek_end(offset)
    }
}

impl<T: SeekBackward> SeekBackward for SeekForwardWrite<T> {
    fn seek_backward(&mut self, offset: u64) -> (r: Result<u64, std::io::Error>) {
        self.inner.seek_backward(offset)
    }
}

impl<T: std::io::Write> std::io::Write for SeekForwardWrite<T> {
    fn write(&mut self, buf: &[u8]) -> (r: Result<usize, std::io::Error>)
        ensures
            r matches Ok(n) ==> n <= buf@.len() && final(self).sent() == old(self).sent()
                + buf@.subrange(0, n as int),
            r is Err ==> final(self).sent() == old(self).sent(),
    {
        match write_from(&mut self.inner, buf) {
            Ok(n) => {
                self.sent = Ghost(self.sent@ + buf@.subrange(0, n as int));
                Ok(n)
            },
            Err(e) => Err(e),
        }
    }

    fn flush(&mut self) -> (r: Result<(), std::io::Error>)
        ensures
            final(self).sent() == old(self).sent(),
    {
        flush_stream(&mut self.inner)
    }
}

impl<T: std::io::Read> std::io::Read for SeekForwardWrite<T> {
    fn read(&mut self, buf: &mut [u8]) -> (r: Result<usize, std::io::Error>)
        ensures
            r matches Ok(n) ==> n <= old(buf)@.len(),
    {
        read_into(&mut self.inner, buf)
    }
}

impl<T: std::io::BufRead> std::io::BufRead for SeekForwardWrite<T> {
    fn fill_buf(&mut self) -> (r: Result<&[u8], std::io::Error>) {
        fill_from(&mut self.inner)
    }

    fn consume(&mut self, amt: usize) {
        consume_within_buffer(&mut self.inner, amt);
    }
}

// Capabilities of the wrapped stream that `SeekAbsoluteRewind` passes through unchanged.

impl<T: Tell> Tell for SeekAbsoluteRewind<T> {
    fn tell(&mut self) -> (r: Result<u64, std::io::Error>) {
        self.inner.tell()
    }
}

impl<T: SeekRewind> SeekRewind for SeekAbsoluteRewind<T> {
    fn seek_rewind(&mut self) -> (r: Result<(), std::io::Error>) {
        self.inner.seek_rewind()
    }
}

impl<T: SeekForward> SeekForward for SeekAbsoluteRewind<T> {
    /// Whether the wrapped stream is at its end.
    closed spec fn at_end(&self) -> bool {
        self.inner.at_end()
    }

    fn seek_forward(&mut self, offset: u64) -> (r: Result<u64, std::io::Error>) {
        self.inner.seek_forward(offset)
    }
}

impl<T: SeekEnd> SeekEnd for SeekAbsoluteRewind<T> {
    fn seek_end(&mut self, offset: i64) -> (r: Result<u64, std::io::Error>) {
        self.inner.seek_end(offset)
    }
}

impl<T: SeekBackward> SeekBackward for SeekAbsoluteRewind<T> {
    fn seek_backward(&mut self, offset: u64) -> (r: Result<u64, std::io::Error>) {
        self.inner.seek_backward(offset)
    }
}

impl<T: std::io::Write> std::io::Write for SeekAbsoluteRewind<T> {
    fn write(&mut self, buf: &[u8]) -> (r: Result<usize, std::io::Error>)
        ensures
            r matches Ok(n) ==> n <= buf@.len(),
    {
        write_from(&mut self.inner, buf)
    }

    fn flush(&mut self) -> (r: Result<(), std::io::Error>) {
        flush_stream(&mut self.inner)
    }
}

impl<T: std::io::Read> std::io::Read for SeekAbsoluteRewind<T> {
    fn read(&mut self, buf: &mut [u8]) -> (r: Result<usize, std::io::Error>)
        ensures
            r matches Ok(n) ==> n <= old(buf)@.len(),
    {
        read_into(&mut self.inner, buf)
    }
}

impl<T: std::io::BufRead> std::io::BufRead for SeekAbsoluteRewind<T> {
    fn fill_buf(&mut self) -> (r: Result<&[u8], std::io::Error>) {
        fill_from(&mut self.inner)
    }

    fn consume(&mut self, amt: usize) {
        consume_within_buffer(&mut self.inner, amt);
    }
}

} // verus!
