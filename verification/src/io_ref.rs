//! `IoRef`: the seeking and I/O traits for a mutable reference.

use vstd::prelude::*;

use crate::seek_forward::{
    SeekAbsolute, SeekBackward, SeekEnd, SeekForward, SeekRewind, StreamPosition, Tell,
};
use crate::consume::consume_within_buffer;
use crate::std_io::{fill_from, flush_stream, read_into, write_from};

verus! {

/// Implements various IO traits for a reference type.
pub struct IoRef<'a, T: ?Sized + 'a>(&'a mut T);

impl<'a, T: ?Sized + 'a> IoRef<'a, T> {
    /// The stream that the reference points to.
    pub closed spec fn target(&self) -> &T {
        &*self.0
    }

    /// Wrap a reference in an `IoRef`.
    pub fn new(t: &'a mut T) -> (r: Self)
        ensures
            r.target() == &*old(t),
    {
        IoRef(t)
    }
}

impl<'a, T: StreamPosition + ?Sized + 'a> StreamPosition for IoRef<'a, T> {
    /// The position of the referenced stream.
    closed spec fn position(&self) -> u64 {
        (*self.0).position()
    }
}

impl<'a, T: ?Sized + 'a> core::ops::Deref for IoRef<'a, T> {
    type Target = T;

    fn deref(&self) -> (r: &T)
        ensures
            r == self.target(),
    {
        &*self.0
    }
}

impl<'a, T: ?Sized + 'a> core::ops::DerefMut for IoRef<'a, T> {
    fn deref_mut(&mut self) -> (r: &mut T)
        ensures
            &*r == old(self).target(),
    {
        &mut *self.0
    }
}

impl<'a, T: Tell + ?Sized + 'a> Tell for IoRef<'a, T> {
    fn tell(&mut self) -> (r: Result<u64, std::io::Error>) {
        (*self.0).tell()
    }
}

impl<'a, T: SeekForward + ?Sized + 'a> SeekForward for IoRef<'a, T> {
    /// Whether the referenced stream is at its end.
    closed spec fn at_end(&self) -> bool {
        (*self.0).at_end()
    }

    fn seek_forward(&mut self, offset: u64) -> (r: Result<u64, std::io::Error>) {
        (*self.0).seek_forward(offset)
    }
}

impl<'a, T: SeekAbsolute + ?Sized + 'a> SeekAbsolute for IoRef<'a, T> {
    fn seek_absolute(&mut self, pos: u64) -> (r: Result<u64, std::io::Error>) {
        (*self.0).seek_absolute(pos)
    }
}

impl<'a, T: SeekRewind + ?Sized + 'a> SeekRewind for IoRef<'a, T> {
    fn seek_rewind(&mut self) -> (r: Result<(), std::io::Error>) {
        (*self.0).seek_rewind()
    }
}

impl<'a, T: SeekBackward + ?Sized + 'a> SeekBackward for IoRef<'a, T> {
    fn seek_backward(&mut self, offset: u64) -> (r: Result<u64, std::io::Error>) {
        (*self.0).seek_backward(offset)
    }
}

impl<'a, T: SeekEnd + ?Sized + 'a> SeekEnd for IoRef<'a, T> {
    fn seek_end(&mut self, offset: i64) -> (r: Result<u64, std::io::Error>) {
        (*self.0).seek_end(offset)
    }
}

impl<'a, T: std::io::Read + ?Sized + 'a> std::io::Read for IoRef<'a, T> {
    fn read(&mut self, buf: &mut [u8]) -> (r: Result<usize, std::io::Error>)
        ensures
            r matches Ok(n) ==> n <= old(buf)@.len(),
    {
        read_into(&mut *self.0, buf)
    }
}

impl<'a, T: std::io::Write + ?Sized + 'a> std::io::Write for IoRef<'a, T> {
    fn write(&mut self, buf: &[u8]) -> (r: Result<usize, std::io::Error>)
        ensures
            r matches Ok(n) ==> n <= buf@.len(),
    {
        write_from(&mut *self.0, buf)
    }

    fn flush(&mut self) -> (r: Result<(), std::io::Error>) {
        flush_stream(&mut *self.0)
    }
}

impl<'a, T: std::io::BufRead + ?Sized + 'a> std::io::BufRead for IoRef<'a, T> {
    fn fill_buf(&mut self) -> (r: Result<&[u8], std::io::Error>) {
        fill_from(&mut *self.0)
    }

    fn consume(&mut self, amt: usize) {
        consume_within_buffer(&mut *self.0, amt);
    }
}

} // verus!
