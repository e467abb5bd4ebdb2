# safe-sid

Windows security identifiers (SIDs) as verified values.

`src/` is the library, verified with Verus:

- `sid.rs`: `Sid` and `SidBuf`, their model `SidValue`, construction
  (`SidBuf::new`), the getters, equality, and reading SIDs from bytes and
  from 32-bit word buffers.
- `authority.rs`: the `SECURITY_*_AUTHORITY` constants, `IntoAuthority`, and
  the conversions between a 48-bit authority and its big-endian bytes.
- `bytes.rs`: the binary layout of a SID, with the proofs that encoding and
  decoding undo each other.
- `text.rs`: the `S-1-...` string form, with the proof that parsing reads back
  what formatting writes.
- `order.rs`: the order of SIDs (authority, then sub-authorities), proved to
  be a total order.
- `error.rs`, `well_known.rs`: error types and well-known SID types.

`app/` holds the Windows side: the calls into the Windows security API and
raw `PSID` pointers, which hand their results to the library. There,
`SidPtr` lays a SID out for Windows (built from `Sid::words`), `fill_sid`
runs the two-call pattern for functions that write a SID into a
caller-supplied buffer (`Error::check_size_query`, `SidBuf::buffer_word_len`,
`Error::check_call`, `SidBuf::from_words`), and `SidBufWindowsExt::from_psid`
copies the SID behind a raw pointer.
