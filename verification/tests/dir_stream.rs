use rsix::dir::{Dir, ReadStep};
use rsix::file_type::FileType;

/// Build one wire-format record: inode, seek token, declared length, type
/// tag, NUL-terminated name, zero padding up to the declared length.
fn mk_record(ino: u64, dtype: u8, name: &[u8], reclen: usize) -> Vec<u8> {
    assert!(reclen >= 19 + name.len() + 1);
    let mut r: Vec<u8> = Vec::new();
    r.extend_from_slice(&ino.to_le_bytes());
    r.extend_from_slice(&0u64.to_le_bytes());
    r.extend_from_slice(&(reclen as u16).to_le_bytes());
    r.push(dtype);
    r.extend_from_slice(name);
    r.push(0);
    while r.len() < reclen {
        r.push(0);
    }
    r
}

#[test]
fn name_nul_stripped() {
    let mut d = Dir::new();
    let rec = mk_record(7, 8, b"file1", 25);
    let n: usize = rec.len();
    let eof = d.end_refill(rec, n);
    assert!(!eof);
    assert!(d.next_record_valid());
    let e = d.decode_next();
    assert_eq!(e.file_name().as_slice(), b"file1");
    assert_eq!(e.ino(), 7);
    assert_eq!(e.file_type(), FileType::RegularFile);
}

#[test]
fn zero_fill_is_end_of_stream() {
    let mut d = Dir::new();
    assert!(matches!(d.read_step(), ReadStep::Refill));
    let eof = d.end_refill(Vec::new(), 0);
    assert!(eof);
    assert!(!d.next_record_valid());
    assert!(matches!(d.read_step(), ReadStep::Refill));
}

#[test]
fn two_packed_records_cursor_ends_at_56() {
    let mut d = Dir::new();
    let mut buf = mk_record(1, 4, b"a", 24);
    buf.extend_from_slice(&mk_record(2, 8, b"file2", 32));
    assert_eq!(buf.len(), 56);
    let eof = d.end_refill(buf, 56);
    assert!(!eof);
    assert_eq!(d.buffered_len(), 56);

    assert!(d.next_record_valid());
    let e1 = d.decode_next();
    assert_eq!(e1.ino(), 1);
    assert_eq!(e1.file_name().as_slice(), b"a");
    assert_eq!(e1.file_type(), FileType::Directory);
    assert_eq!(d.position(), 24);

    assert!(d.next_record_valid());
    let e2 = d.decode_next();
    assert_eq!(e2.ino(), 2);
    assert_eq!(e2.file_name().as_slice(), b"file2");
    assert_eq!(e2.file_type(), FileType::RegularFile);
    assert_eq!(d.position(), 56);

    assert!(matches!(d.read_step(), ReadStep::Refill));
}

#[test]
fn overlong_record_length_is_fatal_not_out_of_bounds() {
    let mut d = Dir::new();
    let mut buf = mk_record(1, 8, b"x", 100);
    buf.truncate(30);
    let eof = d.end_refill(buf, 30);
    assert!(!eof);
    assert!(!d.next_record_valid());
}

#[test]
fn record_length_below_header_is_invalid() {
    let mut d = Dir::new();
    let mut buf = mk_record(1, 8, b"x", 24);
    // Overwrite the declared length with one smaller than a header.
    buf[16] = 10;
    buf[17] = 0;
    let eof = d.end_refill(buf, 24);
    assert!(!eof);
    assert!(!d.next_record_valid());
}

#[test]
fn name_without_nul_in_record_is_invalid() {
    let mut d = Dir::new();
    let mut buf = mk_record(1, 8, b"abc", 24);
    // Overwrite the name area, NUL and padding included, with non-NUL bytes.
    let mut i: usize = 19;
    while i < 24 {
        buf[i] = b'a';
        i += 1;
    }
    let eof = d.end_refill(buf, 24);
    assert!(!eof);
    assert!(!d.next_record_valid());
}

#[test]
fn rewind_then_same_payloads_replay_same_entries() {
    let mut payload = mk_record(10, 4, b"sub", 24);
    payload.extend_from_slice(&mk_record(11, 8, b"data.txt", 32));
    let n: usize = payload.len();

    let mut d = Dir::new();
    let eof = d.end_refill(payload.clone(), n);
    assert!(!eof);
    let mut first: Vec<(u64, Vec<u8>)> = Vec::new();
    while matches!(d.read_step(), ReadStep::Decode) {
        assert!(d.next_record_valid());
        let e = d.decode_next();
        first.push((e.ino(), e.file_name().clone()));
    }
    assert!(d.end_refill(Vec::new(), 0));

    d.rewind();
    assert!(matches!(d.read_step(), ReadStep::Seek(0)));
    assert_eq!(d.take_pending_seek(), Some(0));
    assert!(matches!(d.read_step(), ReadStep::Refill));
    let eof = d.end_refill(payload, n);
    assert!(!eof);
    let mut second: Vec<(u64, Vec<u8>)> = Vec::new();
    while matches!(d.read_step(), ReadStep::Decode) {
        assert!(d.next_record_valid());
        let e = d.decode_next();
        second.push((e.ino(), e.file_name().clone()));
    }
    assert!(d.end_refill(Vec::new(), 0));

    assert_eq!(first.len(), 2);
    assert_eq!(first, second);
}

#[test]
fn failed_refill_then_rewind_decodes_cleanly() {
    let mut d = Dir::new();
    // The kernel call for the first refill fails: the caller reports the
    // error and never calls `end_refill`. The stream stays usable.
    assert!(matches!(d.read_step(), ReadStep::Refill));

    d.rewind();
    assert_eq!(d.take_pending_seek(), Some(0));
    let rec = mk_record(3, 10, b"link", 24);
    let eof = d.end_refill(rec, 24);
    assert!(!eof);
    assert!(d.next_record_valid());
    let e = d.decode_next();
    assert_eq!(e.ino(), 3);
    assert_eq!(e.file_name().as_slice(), b"link");
    assert_eq!(e.file_type(), FileType::Symlink);
}

#[test]
fn refill_capacity_grows_with_buffer() {
    let mut d = Dir::new();
    assert_eq!(d.refill_capacity(), 768);
    let rec = mk_record(1, 8, b"y", 24);
    let eof = d.end_refill(rec, 24);
    assert!(!eof);
    assert_eq!(d.refill_capacity(), 24 + 768);
}

#[test]
fn rewind_discards_buffered_records() {
    let mut d = Dir::new();
    let mut buf = mk_record(1, 8, b"one", 24);
    buf.extend_from_slice(&mk_record(2, 8, b"two", 24));
    let eof = d.end_refill(buf, 48);
    assert!(!eof);
    let e = d.decode_next();
    assert_eq!(e.ino(), 1);

    // One record is still buffered, but a rewind must not reuse it.
    d.rewind();
    assert_eq!(d.position(), d.buffered_len());
    assert!(matches!(d.read_step(), ReadStep::Seek(0)));
}
