# Limited seeking for I/O streams

Traits for streams that can only seek in restricted ways (`SeekRewind`,
`SeekForward`, `SeekBackward`, `SeekEnd`, `SeekAbsolute`, `Tell`) and
adapters built on them, verified with Verus.

- `src/seek_forward.rs`: the traits, the stream position (`StreamPosition`)
  that their contracts speak of, and the contracts every implementation owes.
- `src/io_ref.rs`: `IoRef`, the traits and `std::io` traits for a `&mut` stream.
- `src/adapters.rs`: `SeekForwardRead` (skip by reading), `SeekForwardWrite`
  (skip by writing zeros) and `SeekAbsoluteRewind` (absolute seeking from
  tell, rewind and forward seeking).
- `src/read_write_tell.rs`: `ReadWriteTell`, a position counter for streams
  that cannot report one.
- `src/seekable.rs`: each trait's method for a `std::io::Seek` stream, for
  implementations to call, and the `SeekFrom` each one asks for.
- `src/consume.rs`: consuming buffered bytes without going past the buffer.
- `src/std_io.rs`: the calls into `std::io`, each behind what its
  documentation promises, where callers need it.

The traits of this crate cannot be implemented in verified code for every
type bounded by a `std::io` trait, so `SeekForwardRead` and
`SeekForwardWrite` offer forward seeking as an inherent method, and a
`std::io::Seek` stream gets the traits through the functions of
`src/seekable.rs` (see `tests/read_write_tell.rs`).
