//! Consuming bytes of a buffered stream without going past its buffer.

use vstd::prelude::*;

use crate::std_io::{consume_buffered, fill_buffered};

verus! {

/// How many bytes to consume when `amt` are asked for and the buffer holds
/// `available`: `amt`, cut down to the buffer.
pub open spec fn consume_count(amt: usize, available: usize) -> usize {
    if amt <= available {
        amt
    } else {
        available
    }
}

/// The bytes consumed are the smaller of those asked for and those in the
/// buffer: never more than either, and all that was asked for whenever the
/// buffer holds them.
pub proof fn lemma_consume_count_is_min(amt: usize, available: usize)
    ensures
        consume_count(amt, available) <= amt,
        consume_count(amt, available) <= available,
        consume_count(amt, available) == amt || consume_count(amt, available) == available,
        amt <= available ==> consume_count(amt, available) == amt,
{
}

/// How many bytes to consume when `amt` are asked for and the buffer holds
/// `available`.
pub fn consume_amount(amt: usize, available: usize) -> (k: usize)
    ensures
        k == consume_count(amt, available),
        k <= amt && k <= available,
        k == amt || k == available,
{
    if amt <= available {
        amt
    } else {
        available
    }
}

/// Marks `amt` bytes of the buffer of `r` as read, as
/// `std::io::BufRead::consume` does, but never more than the buffer holds:
/// the buffer is the one `fill_buf` returns again for a caller that asked
/// for it first, and `consume_amount` cuts `amt` down to it. Nothing is
/// consumed, and `fill_buf` is not called, for `amt == 0`; nothing is
/// consumed when `fill_buf` fails.
///
/// Returns the length of the buffer and the number of bytes consumed from
/// it, or `None` where nothing was consumed.
pub fn consume_within_buffer<R: std::io::BufRead + ?Sized>(r: &mut R, amt: usize) -> (c: Option<
    (usize, usize),
>)
    ensures
        amt == 0 ==> c is None,
        c matches Some((available, k)) ==> k == consume_count(amt, available),
        c matches Some((available, k)) ==> k <= amt && k <= available && (k == amt || k
            == available),
{
    if amt == 0 {
        return None;
    }
    match fill_buffered(r) {
        Ok(b) => {
            let available = b.available();
            let k = consume_amount(amt, available);
            consume_buffered(b, k);
            Some((available, k))
        },
        Err(_) => None,
    }
}

} // verus!
