//! The calls into `std::io` that the adapters make. Where the standard
//! library documents something of a call that callers here need, its
//! contract restates it; of `flush`, `fill_buf` and `seek` nothing is
//! claimed.

use vstd::prelude::*;
use vstd::utf8::encode_utf8;

use crate::seekable::SeekTarget;

verus! {

/// `std::io::Error`, carried through the adapters unexamined.
#[verifier::external_type_specification]
#[verifier::external_body]
pub struct ExIoError(std::io::Error);

/// Calls `std::io::Read::read`. Its documentation guarantees that the count
/// returned on success is at most the length of the buffer.
#[verifier::external_body]
pub fn read_into<R: std::io::Read + ?Sized>(r: &mut R, buf: &mut [u8]) -> (res: Result<
    usize,
    std::io::Error,
>)
    ensures
        res matches Ok(n) ==> n <= old(buf)@.len(),
{
    r.read(buf)
}

/// Calls `std::io::Write::write`. Its documentation guarantees that the count
/// returned on success is at most the length of the buffer.
#[verifier::external_body]
pub fn write_from<W: std::io::Write + ?Sized>(w: &mut W, buf: &[u8]) -> (res: Result<
    usize,
    std::io::Error,
>)
    ensures
        res matches Ok(n) ==> n <= buf@.len(),
{
    w.write(buf)
}

/// Calls `std::io::Write::flush`; nothing is claimed of its outcome.
#[verifier::external_body]
pub fn flush_stream<W: std::io::Write + ?Sized>(w: &mut W) -> (res: Result<(), std::io::Error>) {
    w.flush()
}

/// Calls `std::io::BufRead::fill_buf`; nothing is claimed of the bytes it
/// hands back.
#[verifier::external_body]
pub fn fill_from<R: std::io::BufRead + ?Sized>(r: &mut R) -> (res: Result<&[u8], std::io::Error>) {
    r.fill_buf()
}

/// A `std::io::BufRead` stream held borrowed together with the length of
/// the buffer that its `fill_buf` returned. While this value lives, nothing
/// else can reach the stream, so that buffer is still what it holds.
pub struct Buffered<'a, R: ?Sized + 'a> {
    stream: &'a mut R,
    available: usize,
}

impl<'a, R: ?Sized + 'a> Buffered<'a, R> {
    /// The length of the buffer.
    pub closed spec fn len(&self) -> usize {
        self.available
    }

    /// The length of the buffer.
    pub fn available(&self) -> (n: usize)
        ensures
            n == self.len(),
    {
        self.available
    }
}

/// Calls `std::io::BufRead::fill_buf` and keeps, with the stream, the length
/// of the buffer it returned; nothing is claimed of that length.
#[verifier::external_body]
pub fn fill_buffered<'a, R: std::io::BufRead + ?Sized>(r: &'a mut R) -> (res: Result<
    Buffered<'a, R>,
    std::io::Error,
>) {
    let available = r.fill_buf()?.len();
    Ok(Buffered { stream: r, available })
}

/// Calls `std::io::BufRead::consume`. Its documentation asks that `amt` be
/// at most the length of the buffer `fill_buf` returned, and some
/// implementations panic otherwise, so `amt` is required to be within the
/// buffer that `b` holds the stream with. Nothing is claimed of the call.
#[verifier::external_body]
pub fn consume_buffered<'a, R: std::io::BufRead + ?Sized>(b: Buffered<'a, R>, amt: usize)
    requires
        amt <= b.len(),
{
    b.stream.consume(amt)
}

/// Calls `std::io::BufRead::read_until`. Its documentation says that the
/// bytes read are appended to `buf` and that their number is returned.
#[verifier::external_body]
pub fn read_until_into<R: std::io::BufRead + ?Sized>(
    r: &mut R,
    byte: u8,
    buf: &mut Vec<u8>,
) -> (res: Result<usize, std::io::Error>)
    ensures
        res matches Ok(n) ==> {
            &&& final(buf)@.len() == old(buf)@.len() + n
            &&& final(buf)@.subrange(0, old(buf)@.len() as int) == old(buf)@
        },
{
    r.read_until(byte, buf)
}

/// Calls `std::io::BufRead::read_line`. Its documentation says that the line
/// read is appended to `buf` and that its length in bytes is returned.
#[verifier::external_body]
pub fn read_line_into<R: std::io::BufRead + ?Sized>(r: &mut R, buf: &mut String) -> (res: Result<
    usize,
    std::io::Error,
>)
    ensures
        res matches Ok(n) ==> exists|line: Seq<char>|
            #![trigger encode_utf8(line)]
            final(buf)@ == old(buf)@ + line && encode_utf8(line).len() == n,
{
    r.read_line(buf)
}

/// Calls `std::io::copy` from the first `limit` bytes of `r` into
/// `std::io::sink()`. The copy ends at `limit` bytes or at the end of `r`:
/// on success it returns the count copied, which is at most `limit` and
/// short of it only when `r` ran out, together with the `limit` it was
/// asked for.
#[verifier::external_body]
pub fn copy_to_sink<R: std::io::Read + ?Sized>(r: &mut R, limit: u64) -> (res: Result<
    (u64, u64),
    std::io::Error,
>)
    ensures
        res matches Ok((n, asked)) ==> n <= limit && asked == limit,
{
    match std::io::copy(&mut std::io::Read::take(r, limit), &mut std::io::sink()) {
        Ok(n) => Ok((n, limit)),
        Err(e) => Err(e),
    }
}

/// Calls `std::io::copy` from `count` copies of `byte` (`std::io::repeat`
/// limited by `take`) into `w`. That reader never runs dry before `count`
/// bytes and the copy hands every byte it reads to `w`, so on success `w`
/// has accepted `count` copies of `byte`: the count returned is `count`,
/// returned together with the byte copied.
#[verifier::external_body]
pub fn copy_repeated<W: std::io::Write + ?Sized>(w: &mut W, byte: u8, count: u64) -> (res: Result<
    (u64, u8),
    std::io::Error,
>)
    ensures
        res matches Ok((n, sent)) ==> n == count && sent == byte,
{
    match std::io::copy(&mut std::io::Read::take(std::io::repeat(byte), count), w) {
        Ok(n) => Ok((n, byte)),
        Err(e) => Err(e),
    }
}

/// Calls `std::io::Seek::seek`. Nothing is claimed of the position it
/// reports: implementations such as `std::io::Empty` report 0 whatever they
/// are asked.
#[verifier::external_body]
pub fn seek_stream<S: std::io::Seek + ?Sized>(s: &mut S, target: SeekTarget) -> (res: Result<
    u64,
    std::io::Error,
>) {
    let from = match target {
        SeekTarget::Start(p) => std::io::SeekFrom::Start(p),
        SeekTarget::End(o) => std::io::SeekFrom::End(o),
        SeekTarget::Current(o) => std::io::SeekFrom::Current(o),
    };
    s.seek(from)
}

} // verus!
