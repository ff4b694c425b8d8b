//! Every limited form of seeking, for a stream that implements
//! `std::io::Seek`.
//!
//! A stream type that can seek freely gets each trait of this crate by
//! calling the matching function here from its implementation, e.g.
//! `fn tell(&mut self) -> io::Result<u64> { tell_by_seek(&mut self.0) }`.
//! Which `std::io::SeekFrom` each of them asks for is fixed by
//! `seek_target`; what the stream does with it is up to the stream.

use vstd::prelude::*;

use crate::std_io::seek_stream;

verus! {

/// Where a `std::io::Seek` stream is asked to move to; mirrors
/// `std::io::SeekFrom` variant for variant.
pub enum SeekTarget {
    Start(u64),
    End(i64),
    Current(i64),
}

/// A limited seek, as it is asked of a `std::io::Seek` stream. Forward and
/// backward moves are single relative steps of at most `i64::MAX` bytes.
pub enum SeekRequest {
    Tell,
    Forward(u64),
    Backward(u64),
    Absolute(u64),
    Rewind,
    End(i64),
}

/// The largest relative step: `std::io::SeekFrom::Current` takes an `i64`.
pub open spec fn max_step() -> u64 {
    0x7fff_ffff_ffff_ffff
}

/// The `std::io::SeekFrom` that stands for each limited seek: telling is a
/// relative seek by 0, a rewind a seek to the start, forward and backward
/// steps relative seeks by plus or minus the step.
pub open spec fn seek_target_of(request: SeekRequest) -> SeekTarget {
    match request {
        SeekRequest::Tell => SeekTarget::Current(0),
        SeekRequest::Forward(n) => SeekTarget::Current(n as i64),
        SeekRequest::Backward(n) => SeekTarget::Current((-(n as int)) as i64),
        SeekRequest::Absolute(p) => SeekTarget::Start(p),
        SeekRequest::Rewind => SeekTarget::Start(0),
        SeekRequest::End(o) => SeekTarget::End(o),
    }
}

/// The `std::io::SeekFrom` to ask for `request`.
pub fn seek_target(request: SeekRequest) -> (t: SeekTarget)
    requires
        request matches SeekRequest::Forward(n) ==> n <= max_step(),
        request matches SeekRequest::Backward(n) ==> n <= max_step(),
    ensures
        t == seek_target_of(request),
{
    match request {
        SeekRequest::Tell => SeekTarget::Current(0),
        SeekRequest::Forward(n) => SeekTarget::Current(n as i64),
        SeekRequest::Backward(n) => SeekTarget::Current(-(n as i64)),
        SeekRequest::Absolute(p) => SeekTarget::Start(p),
        SeekRequest::Rewind => SeekTarget::Start(0),
        SeekRequest::End(o) => SeekTarget::End(o),
    }
}

/// The size of the next relative step when `remaining` bytes are left to
/// move: all of them, or `i64::MAX` when more are left.
pub open spec fn step_len(remaining: u64) -> u64 {
    if remaining > max_step() {
        max_step()
    } else {
        remaining
    }
}

/// The size of the next relative step when `remaining` bytes are left.
pub fn next_step(remaining: u64) -> (step: u64)
    ensures
        step == step_len(remaining),
        step <= max_step(),
        step <= remaining,
        remaining > 0 ==> step > 0,
{
    if remaining > 0x7fff_ffff_ffff_ffffu64 {
        0x7fff_ffff_ffff_ffffu64
    } else {
        remaining
    }
}

/// The position of `s`: a seek by zero from the current position.
pub fn tell_by_seek<S: std::io::Seek>(s: &mut S) -> (r: Result<u64, std::io::Error>) {
    seek_stream(s, seek_target(SeekRequest::Tell))
}

/// Seeks `s` forward by `offset` bytes from its current position, in
/// relative steps of `next_step` bytes, never backward (a single seek by 0
/// when `offset` is 0).
///
/// Returns `offset`, the number of bytes skipped, once every step succeeded;
/// the first step that fails ends the seek with its error.
pub fn seek_forward_by_seek<S: std::io::Seek>(s: &mut S, offset: u64) -> (r: Result<
    u64,
    std::io::Error,
>)
    ensures
        r matches Ok(n) ==> n == offset,
{
    let mut remaining: u64 = offset;
    loop
        invariant
            remaining <= offset,
        decreases remaining,
    {
        let step = next_step(remaining);
        match seek_stream(s, seek_target(SeekRequest::Forward(step))) {
            Ok(_) => {},
            Err(e) => {
                return Err(e);
            },
        }
        remaining = remaining - step;
        if remaining == 0 {
            return Ok(offset);
        }
    }
}

/// Seeks `s` back by `offset` bytes from its current position, in relative
/// steps of `next_step` bytes, never forward (a single seek by 0 when
/// `offset` is 0).
///
/// Returns `offset`, the number of bytes reversed by, once every step
/// succeeded; the first step that fails ends the seek with its error.
pub fn seek_backward_by_seek<S: std::io::Seek>(s: &mut S, offset: u64) -> (r: Result<
    u64,
    std::io::Error,
>)
    ensures
        r matches Ok(n) ==> n == offset,
{
    let mut remaining: u64 = offset;
    loop
        invariant
            remaining <= offset,
        decreases remaining,
    {
        let step = next_step(remaining);
        match seek_stream(s, seek_target(SeekRequest::Backward(step))) {
            Ok(_) => {},
            Err(e) => {
                return Err(e);
            },
        }
        remaining = remaining - step;
        if remaining == 0 {
            return Ok(offset);
        }
    }
}

/// Seeks `s` to `pos` bytes from its start; returns the new position that
/// `s` reports.
pub fn seek_absolute_by_seek<S: std::io::Seek>(s: &mut S, pos: u64) -> (r: Result<
    u64,
    std::io::Error,
>) {
    seek_stream(s, seek_target(SeekRequest::Absolute(pos)))
}

/// Seeks `s` back to its start.
pub fn seek_rewind_by_seek<S: std::io::Seek>(s: &mut S) -> (r: Result<
    (),
    std::io::Error,
>) {
    match seek_stream(s, seek_target(SeekRequest::Rewind)) {
        Ok(_) => Ok(()),
        Err(e) => Err(e),
    }
}

/// Seeks `s` to its end plus `offset`; returns the new position that `s`
/// reports.
pub fn seek_end_by_seek<S: std::io::Seek>(s: &mut S, offset: i64) -> (r: Result<
    u64,
    std::io::Error,
>) {
    seek_stream(s, seek_target(SeekRequest::End(offset)))
}

} // verus!
