use std::io::{Cursor, Read, Write};

use lib::{
    absolute_seek_landing, absolute_seek_steps, seek_absolute_by_seek, seek_backward_by_seek, seek_end_by_seek, seek_forward_by_seek,
    seek_rewind_by_seek, tell_by_seek, IoRef, SeekAbsolute, SeekAbsoluteRewind, SeekBackward,
    SeekEnd, SeekForward, SeekForwardRead, SeekForwardWrite, SeekRewind, StreamPosition, Tell,
};
use std::io::BufRead;

/// A stream that can only tell, rewind and skip forward, recording each call.
struct ForwardOnly {
    len: u64,
    pos: u64,
    calls: Vec<String>,
}

impl ForwardOnly {
    fn new(len: u64, pos: u64) -> Self {
        ForwardOnly { len: len, pos: pos, calls: Vec::new() }
    }
}

impl StreamPosition for ForwardOnly {
    fn position(&self) -> u64 {
        self.pos
    }
}

impl Tell for ForwardOnly {
    fn tell(&mut self) -> std::io::Result<u64> {
        self.calls.push(String::from("tell"));
        Ok(self.pos)
    }
}

impl SeekRewind for ForwardOnly {
    fn seek_rewind(&mut self) -> std::io::Result<()> {
        self.calls.push(String::from("rewind"));
        self.pos = 0;
        Ok(())
    }
}

impl SeekForward for ForwardOnly {
    fn seek_forward(&mut self, offset: u64) -> std::io::Result<u64> {
        self.calls.push(format!("forward {}", offset));
        let n = offset.min(self.len - self.pos);
        self.pos += n;
        Ok(n)
    }
}

impl SeekEnd for ForwardOnly {
    fn seek_end(&mut self, _offset: i64) -> std::io::Result<u64> {
        self.pos = self.len;
        Ok(self.len)
    }
}

impl SeekBackward for ForwardOnly {
    fn seek_backward(&mut self, offset: u64) -> std::io::Result<u64> {
        let n = offset.min(self.pos);
        self.pos -= n;
        Ok(n)
    }
}

#[test]
fn seek_forward_read_skips_bytes() {
    let mut s = SeekForwardRead::new(Cursor::new(b"hello world".to_vec()));
    assert_eq!(s.seek_forward(3).unwrap(), 3);
    let mut rest = String::new();
    s.read_to_string(&mut rest).unwrap();
    assert_eq!(rest, "lo world");
}

#[test]
fn seek_forward_read_stops_at_end() {
    let mut s = SeekForwardRead::new(Cursor::new(b"hello".to_vec()));
    assert_eq!(s.seek_forward(10).unwrap(), 5);
    assert_eq!(s.seek_forward(1).unwrap(), 0);
}

#[test]
fn seek_forward_read_zero_reads_nothing() {
    let mut s = SeekForwardRead::new(Cursor::new(b"abc".to_vec()));
    assert_eq!(s.seek_forward(0).unwrap(), 0);
    let mut buf = [0u8; 1];
    s.read(&mut buf).unwrap();
    assert_eq!(&buf, b"a");
}

#[test]
fn seek_forward_write_writes_zeros() {
    let mut out: Vec<u8> = Vec::new();
    {
        let mut s = SeekForwardWrite::new(&mut out);
        s.write_all(b"ab").unwrap();
        assert_eq!(s.seek_forward(4).unwrap(), 4);
        assert_eq!(s.seek_forward(0).unwrap(), 0);
        s.write_all(b"cd").unwrap();
        s.flush().unwrap();
    }
    assert_eq!(out, vec![b'a', b'b', 0, 0, 0, 0, b'c', b'd']);
}

#[test]
fn seek_absolute_rewind_moves_forward() {
    let mut s = SeekAbsoluteRewind::new(ForwardOnly::new(100, 0));
    assert_eq!(s.seek_absolute(5).unwrap(), 5);
    assert_eq!(s.seek_absolute(9).unwrap(), 9);
    assert_eq!(s.tell().unwrap(), 9);
}

#[test]
fn seek_absolute_rewind_rewinds_when_past() {
    let mut s = SeekAbsoluteRewind::new(ForwardOnly::new(100, 50));
    assert_eq!(s.seek_absolute(20).unwrap(), 20);
    assert_eq!(s.tell().unwrap(), 20);
}

#[test]
fn seek_absolute_rewind_call_sequence() {
    let mut inner = ForwardOnly::new(100, 50);
    {
        let mut s = SeekAbsoluteRewind::new(IoRef::new(&mut inner));
        assert_eq!(s.seek_absolute(20).unwrap(), 20);
        assert_eq!(s.seek_absolute(30).unwrap(), 30);
        assert_eq!(s.seek_absolute(0).unwrap(), 0);
    }
    let expected: Vec<String> = vec![
        "tell", "rewind", "forward 20", "tell", "forward 10", "rewind",
    ]
    .into_iter()
    .map(String::from)
    .collect();
    assert_eq!(inner.calls, expected);
    assert_eq!(inner.pos, 0);
}

#[test]
fn seek_absolute_rewind_same_position() {
    let mut inner = ForwardOnly::new(100, 40);
    {
        let mut s = SeekAbsoluteRewind::new(IoRef::new(&mut inner));
        assert_eq!(s.seek_absolute(40).unwrap(), 40);
    }
    let expected: Vec<String> = vec!["tell", "forward 0"].into_iter().map(String::from).collect();
    assert_eq!(inner.calls, expected);
}

#[test]
fn seek_absolute_rewind_stops_at_end() {
    let mut s = SeekAbsoluteRewind::new(ForwardOnly::new(4, 0));
    assert_eq!(s.seek_absolute(10).unwrap(), 4);
}

#[test]
fn seek_absolute_rewind_passes_other_capabilities_through() {
    let mut s = SeekAbsoluteRewind::new(ForwardOnly::new(100, 10));
    assert_eq!(s.seek_forward(5).unwrap(), 5);
    assert_eq!(s.seek_backward(3).unwrap(), 3);
    assert_eq!(s.tell().unwrap(), 12);
    assert_eq!(s.seek_end(0).unwrap(), 100);
    s.seek_rewind().unwrap();
    assert_eq!(s.tell().unwrap(), 0);
}

#[test]
fn seek_forward_read_passes_other_capabilities_through() {
    let mut s = SeekForwardRead::new(ForwardOnly::new(100, 10));
    assert_eq!(s.tell().unwrap(), 10);
    assert_eq!(s.seek_backward(4).unwrap(), 4);
    assert_eq!(s.seek_end(0).unwrap(), 100);
    s.seek_rewind().unwrap();
    assert_eq!(s.tell().unwrap(), 0);
}

#[test]
fn io_ref_forwards_to_target() {
    let mut c = Cursor::new(b"abcdef".to_vec());
    {
        let mut r = IoRef::new(&mut c);
        let mut buf = [0u8; 2];
        assert_eq!(r.read(&mut buf).unwrap(), 2);
        assert_eq!(&buf, b"ab");
        assert_eq!((*r).position(), 2);
        r.set_position(4);
    }
    assert_eq!(c.position(), 4);
}

#[test]
fn io_ref_seek_traits() {
    let mut inner = ForwardOnly::new(50, 0);
    {
        let mut r = IoRef::new(&mut inner);
        assert_eq!(r.seek_forward(8).unwrap(), 8);
        assert_eq!(r.tell().unwrap(), 8);
        assert_eq!(r.seek_backward(3).unwrap(), 3);
        assert_eq!(r.seek_end(0).unwrap(), 50);
        r.seek_rewind().unwrap();
    }
    assert_eq!(inner.pos, 0);
}

#[test]
fn seekable_functions_on_cursor() {
    let mut c = Cursor::new(b"0123456789".to_vec());
    assert_eq!(tell_by_seek(&mut c).unwrap(), 0);
    assert_eq!(seek_forward_by_seek(&mut c, 4).unwrap(), 4);
    assert_eq!(tell_by_seek(&mut c).unwrap(), 4);
    assert_eq!(seek_backward_by_seek(&mut c, 3).unwrap(), 3);
    assert_eq!(tell_by_seek(&mut c).unwrap(), 1);
    assert_eq!(seek_absolute_by_seek(&mut c, 7).unwrap(), 7);
    assert_eq!(seek_end_by_seek(&mut c, -2).unwrap(), 8);
    seek_rewind_by_seek(&mut c).unwrap();
    assert_eq!(tell_by_seek(&mut c).unwrap(), 0);
}

#[test]
fn seekable_offsets_past_i64_take_several_steps() {
    let mut c = Cursor::new(b"0123456789".to_vec());
    c.set_position(3);
    assert_eq!(seek_forward_by_seek(&mut c, 1u64 << 63).unwrap(), 1u64 << 63);
    assert_eq!(c.position(), 3 + (1u64 << 63));
    assert_eq!(seek_backward_by_seek(&mut c, 1u64 << 63).unwrap(), 1u64 << 63);
    assert_eq!(c.position(), 3);
    assert!(seek_forward_by_seek(&mut c, u64::MAX).is_err());
}

#[test]
fn seekable_backward_before_start_fails() {
    let mut c = Cursor::new(b"0123".to_vec());
    c.set_position(1);
    assert!(seek_backward_by_seek(&mut c, 2).is_err());
}

#[test]
fn absolute_seek_steps_values() {
    assert_eq!(absolute_seek_steps(10, 15), (true, 10));
    assert_eq!(absolute_seek_steps(10, 4), (false, 6));
    assert_eq!(absolute_seek_steps(10, 10), (false, 0));
    assert_eq!(absolute_seek_steps(u64::MAX, 0), (false, u64::MAX));
}

#[test]
fn absolute_seek_landing_values() {
    assert_eq!(absolute_seek_landing(10, 15, 10), 10);
    assert_eq!(absolute_seek_landing(10, 15, 4), 4);
    assert_eq!(absolute_seek_landing(10, 4, 6), 10);
    assert_eq!(absolute_seek_landing(10, 4, 2), 6);
}

#[test]
fn seek_absolute_rewind_stays_when_at_position() {
    let mut inner = ForwardOnly::new(100, 30);
    {
        let mut s = SeekAbsoluteRewind::new(IoRef::new(&mut inner));
        assert_eq!(s.seek_absolute(30).unwrap(), 30);
        assert_eq!(s.seek_absolute(30).unwrap(), 30);
    }
    let expected: Vec<String> =
        vec!["tell", "forward 0", "tell", "forward 0"].into_iter().map(String::from).collect();
    assert_eq!(inner.calls, expected);
}

#[test]
fn io_ref_consume_stays_within_buffer() {
    let mut data: &[u8] = b"abcd";
    {
        let mut r = IoRef::new(&mut data);
        assert_eq!(r.fill_buf().unwrap().len(), 4);
        r.consume(2);
        assert_eq!(r.fill_buf().unwrap().to_vec(), b"cd".to_vec());
        r.consume(7);
    }
    assert_eq!(data.len(), 0);
}
