//! Limited forms of seeking, one trait per capability.
//!
//! Each trait is for streams to implement. The `ensures` of a method is what
//! every implementation owes its callers; the implementations in this crate
//! are verified against it. They speak of the stream's position, the
//! `StreamPosition` every seeking stream has: the number of bytes from the
//! start of the stream, as `Tell` reports it. Positions are `u64`; a forward
//! move past `u64::MAX` wraps around.

use vstd::prelude::*;

verus! {

/// The position of a stream: the offset from its start, in bytes.
pub trait StreamPosition {
    /// The current position.
    spec fn position(&self) -> u64;
}

/// The position after moving `n` bytes forward from `pos`.
pub open spec fn advanced(pos: u64, n: nat) -> u64 {
    ((pos + n) % 0x1_0000_0000_0000_0000) as u64
}

/// Moving `a` bytes and then `b` bytes forward reaches the position that
/// moving `a + b` bytes at once reaches.
pub proof fn lemma_advanced_adds(pos: u64, a: nat, b: nat)
    ensures
        advanced(advanced(pos, a), b) == advanced(pos, a + b),
{
    let m: int = 0x1_0000_0000_0000_0000;
    vstd::arithmetic::div_mod::lemma_add_mod_noop(pos + a, b as int, m);
    vstd::arithmetic::div_mod::lemma_mod_twice(pos + a, m);
}

/// A forward move that stays within `u64` lands exactly `n` bytes further.
pub proof fn lemma_advanced_exact(pos: u64, n: nat)
    requires
        pos + n <= u64::MAX,
    ensures
        advanced(pos, n) == pos + n,
{
    vstd::arithmetic::div_mod::lemma_small_mod((pos + n) as nat, 0x1_0000_0000_0000_0000);
}

/// A limited form of seeking that can only be reset from the beginning.
///
/// Useful for expressing compressed or cipher streams.
pub trait SeekRewind: StreamPosition {
    /// Seeks back to the beginning of the stream.
    ///
    /// Conceptually equivalent to `seek(SeekFrom::Start(0))`: on success the
    /// position is 0.
    fn seek_rewind(&mut self) -> (r: Result<(), std::io::Error>)
        ensures
            r is Ok ==> final(self).position() == 0,
    ;
}

/// A limited form of seeking that only allows seeking forward.
pub trait SeekForward: StreamPosition {
    /// Whether no byte of the stream lies past its position. A stream that
    /// does not say is taken to be at its end, which leaves its forward
    /// seeks free to stop short.
    open spec fn at_end(&self) -> bool {
        true
    }

    /// Seeks forward in the stream.
    ///
    /// Returns the number of bytes skipped, which is at most `offset` and
    /// short of it only at the end of the stream; the position moves
    /// forward by that many bytes.
    fn seek_forward(&mut self, offset: u64) -> (r: Result<u64, std::io::Error>)
        ensures
            r matches Ok(n) ==> n <= offset && final(self).position() == advanced(
                old(self).position(),
                n as nat,
            ),
            r matches Ok(n) ==> (n < offset ==> final(self).at_end()),
    ;
}

/// A limited form of seeking that only allows seeking backward.
pub trait SeekBackward: StreamPosition {
    /// Seeks backward in the stream.
    ///
    /// Returns the number of bytes reversed by, which is at most `offset`
    /// and at most the position; the position moves back by that many bytes.
    fn seek_backward(&mut self, offset: u64) -> (r: Result<u64, std::io::Error>)
        ensures
            r matches Ok(n) ==> {
                &&& n <= offset
                &&& n <= old(self).position()
                &&& final(self).position() == old(self).position() - n
            },
    ;
}

/// A limited form of seeking that only seeks to an offset from the end of the stream.
pub trait SeekEnd: StreamPosition {
    /// Seeks to the end of the stream + `offset`.
    ///
    /// Returns the new position in the stream.
    fn seek_end(&mut self, offset: i64) -> (r: Result<u64, std::io::Error>)
        ensures
            r matches Ok(p) ==> final(self).position() == p,
    ;
}

/// A limited form of seeking that only seeks to an absolute position from the start.
pub trait SeekAbsolute: StreamPosition {
    /// Seeks to the specified position in the stream.
    ///
    /// Returns the new position in the stream, which is not past `pos`.
    fn seek_absolute(&mut self, pos: u64) -> (r: Result<u64, std::io::Error>)
        ensures
            r matches Ok(p) ==> p <= pos && final(self).position() == p,
    ;
}

/// Exposes the current position in the stream without changing it.
pub trait Tell: StreamPosition {
    /// Returns the current absolute position in the stream.
    fn tell(&mut self) -> (r: Result<u64, std::io::Error>)
        ensures
            r matches Ok(p) ==> p == old(self).position(),
            final(self).position() == old(self).position(),
    ;
}

} // verus!
