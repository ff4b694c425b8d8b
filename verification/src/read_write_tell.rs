//! `ReadWriteTell`: a position counter for streams that cannot report one.
//!
//! The counter starts at zero and moves by the count each read, write or
//! forward seek through the wrapper reports, and by the amount each
//! `consume` is asked for; rewinding resets it and an absolute seek sets it
//! to the position reached. A failed call leaves it as it was. Positions are
//! `u64` and the counter wraps around past `u64::MAX`.

use vstd::prelude::*;
use vstd::utf8::encode_utf8;

use crate::seek_forward::{advanced, SeekAbsolute, SeekForward, SeekRewind, StreamPosition, Tell};
use crate::consume::consume_within_buffer;
use crate::std_io::{
    fill_from, flush_stream, read_into, read_line_into, read_until_into, write_from,
};

verus! {

/// A wrapper that implements `Tell` for streams that don't support it.
pub struct ReadWriteTell<T> {
    inner: T,
    pos: u64,
}

impl<T> StreamPosition for ReadWriteTell<T> {
    /// The counter.
    closed spec fn position(&self) -> u64 {
        self.pos
    }
}

impl<T> ReadWriteTell<T> {
    /// The wrapped stream.
    pub closed spec fn inner(&self) -> T {
        self.inner
    }

    /// Creates a new `ReadWriteTell`, whose position starts at zero.
    pub fn new(inner: T) -> (r: Self)
        ensures
            r.position() == 0,
            r.inner() == inner,
    {
        ReadWriteTell { inner: inner, pos: 0 }
    }

    /// Moves the counter by `n` bytes.
    fn advance(&mut self, n: u64)
        ensures
            final(self).position() == advanced(old(self).position(), n as nat),
            final(self).inner() == old(self).inner(),
    {
        self.pos = self.pos.wrapping_add(n);
    }
}

impl<T> Tell for ReadWriteTell<T> {
    #[inline]
    fn tell(&mut self) -> (r: Result<u64, std::io::Error>)
        ensures
            r matches Ok(p) && p == old(self).position(),
            *final(self) == *old(self),
    {
        Ok(self.pos)
    }
}

impl<T: std::io::Read> std::io::Read for ReadWriteTell<T> {
    #[inline]
    fn read(&mut self, buf: &mut [u8]) -> (r: Result<usize, std::io::Error>)
        ensures
            r matches Ok(n) ==> n <= old(buf)@.len() && final(self).position() == advanced(
                old(self).position(),
                n as nat,
            ),
            r is Err ==> final(self).position() == old(self).position(),
    {
        let read = read_into(&mut self.inner, buf)?;
        self.advance(read as u64);
        Ok(read)
    }
}

impl<T: std::io::BufRead> std::io::BufRead for ReadWriteTell<T> {
    #[inline]
    fn fill_buf(&mut self) -> (r: Result<&[u8], std::io::Error>)
        ensures
            final(self).position() == old(self).position(),
    {
        fill_from(&mut self.inner)
    }

    #[inline]
    fn consume(&mut self, amt: usize)
        ensures
            final(self).position() == advanced(old(self).position(), amt as nat),
    {
        consume_within_buffer(&mut self.inner, amt);
        self.advance(amt as u64);
    }

    #[inline]
    fn read_until(&mut self, byte: u8, buf: &mut Vec<u8>) -> (r: Result<usize, std::io::Error>)
        ensures
            r matches Ok(n) ==> {
                &&& final(buf)@.len() == old(buf)@.len() + n
                &&& final(buf)@.subrange(0, old(buf)@.len() as int) == old(buf)@
                &&& final(self).position() == advanced(old(self).position(), n as nat)
            },
            r is Err ==> final(self).position() == old(self).position(),
    {
        let read = read_until_into(&mut self.inner, byte, buf)?;
        self.advance(read as u64);
        Ok(read)
    }

    #[inline]
    fn read_line(&mut self, buf: &mut String) -> (r: Result<usize, std::io::Error>)
        ensures
            r matches Ok(n) ==> {
                &&& exists|line: Seq<char>|
                    #![trigger encode_utf8(line)]
                    final(buf)@ == old(buf)@ + line && encode_utf8(line).len() == n
                &&& final(self).position() == advanced(old(self).position(), n as nat)
            },
            r is Err ==> final(self).position() == old(self).position(),
    {
        let read = read_line_into(&mut self.inner, buf)?;
        self.advance(read as u64);
        Ok(read)
    }
}

impl<T: std::io::Write> std::io::Write for ReadWriteTell<T> {
    #[inline]
    fn write(&mut self, buf: &[u8]) -> (r: Result<usize, std::io::Error>)
        ensures
            r matches Ok(n) ==> n <= buf@.len() && final(self).position() == advanced(
                old(self).position(),
                n as nat,
            ),
            r is Err ==> final(self).position() == old(self).position(),
    {
        let write = write_from(&mut self.inner, buf)?;
        self.advance(write as u64);
        Ok(write)
    }

    #[inline]
    fn flush(&mut self) -> (r: Result<(), std::io::Error>)
        ensures
            final(self).position() == old(self).position(),
    {
        flush_stream(&mut self.inner)
    }
}

impl<T: SeekForward> SeekForward for ReadWriteTell<T> {
    /// Whether the wrapped stream is at its end.
    closed spec fn at_end(&self) -> bool {
        self.inner.at_end()
    }

    #[inline]
    fn seek_forward(&mut self, offset: u64) -> (r: Result<u64, std::io::Error>)
        ensures
            r matches Ok(n) ==> final(self).position() == advanced(old(self).position(), n as nat),
            r is Err ==> final(self).position() == old(self).position(),
            r is Ok && old(self).position() == old(self).inner().position() ==> {
                final(self).position() == final(self).inner().position()
            },
    {
        let offset = self.inner.seek_forward(offset)?;
        self.advance(offset);
        Ok(offset)
    }
}

impl<T: SeekRewind> SeekRewind for ReadWriteTell<T> {
    #[inline]
    fn seek_rewind(&mut self) -> (r: Result<(), std::io::Error>)
        ensures
            r is Ok ==> final(self).position() == 0,
            r is Err ==> final(self).position() == old(self).position(),
            r is Ok ==> final(self).position() == final(self).inner().position(),
    {
        self.inner.seek_rewind()?;
        self.pos = 0;
        Ok(())
    }
}

impl<T: SeekAbsolute> SeekAbsolute for ReadWriteTell<T> {
    #[inline]
    fn seek_absolute(&mut self, pos: u64) -> (r: Result<u64, std::io::Error>)
        ensures
            r matches Ok(p) ==> final(self).position() == p,
            r is Err ==> final(self).position() == old(self).position(),
            r is Ok ==> final(self).position() == final(self).inner().position(),
    {
        let pos = self.inner.seek_absolute(pos)?;
        self.pos = pos;
        Ok(pos)
    }
}

} // verus!
