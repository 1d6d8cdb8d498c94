//! The kernel's directory-record wire format.
//!
//! A record is laid out as a fixed header followed by a NUL-terminated name:
//! an 8-byte inode number at offset 0, an 8-byte seek token at offset 8, a
//! 2-byte record length at offset 16, a 1-byte file-type tag at offset 18,
//! and the name bytes from offset 19 on. The record length counts the whole
//! record, header, name, terminator and trailing padding included. Records
//! are packed back to back with no alignment guarantee, so multi-byte fields
//! are assembled byte-wise (the kernel emits them little-endian).

use vstd::prelude::*;

verus! {

/// Size in bytes of the fixed part of a record: the 19 header bytes padded
/// out to the header struct's 8-byte alignment.
pub const DIRENT_HEADER_LEN: usize = 24;

/// Byte offset of the inode field within a record.
pub const OFF_INO: usize = 0;

/// Byte offset of the seek-token field within a record.
pub const OFF_OFFSET: usize = 8;

/// Byte offset of the record-length field within a record.
pub const OFF_RECLEN: usize = 16;

/// Byte offset of the file-type tag within a record.
pub const OFF_TYPE: usize = 18;

/// Byte offset of the first name byte within a record.
pub const OFF_NAME: usize = 19;

/// A 16-bit integer assembled from two little-endian bytes.
pub open spec fn u16_le(b0: u8, b1: u8) -> u16 {
    (b0 as u16) | ((b1 as u16) << 8u16)
}

/// A 64-bit integer assembled from eight little-endian bytes.
pub open spec fn u64_le(b0: u8, b1: u8, b2: u8, b3: u8, b4: u8, b5: u8, b6: u8, b7: u8) -> u64 {
    (b0 as u64) | ((b1 as u64) << 8u64) | ((b2 as u64) << 16u64) | ((b3 as u64) << 24u64)
        | ((b4 as u64) << 32u64) | ((b5 as u64) << 40u64) | ((b6 as u64) << 48u64)
        | ((b7 as u64) << 56u64)
}

/// The declared length of the record starting at `pos`.
pub open spec fn rec_len_of(buf: Seq<u8>, pos: int) -> u16 {
    u16_le(buf[pos + OFF_RECLEN], buf[pos + OFF_RECLEN + 1])
}

/// The inode number of the record starting at `pos`.
pub open spec fn ino_of(buf: Seq<u8>, pos: int) -> u64 {
    u64_le(
        buf[pos + OFF_INO],
        buf[pos + OFF_INO + 1],
        buf[pos + OFF_INO + 2],
        buf[pos + OFF_INO + 3],
        buf[pos + OFF_INO + 4],
        buf[pos + OFF_INO + 5],
        buf[pos + OFF_INO + 6],
        buf[pos + OFF_INO + 7],
    )
}

/// The file-type tag of the record starting at `pos`.
pub open spec fn type_of(buf: Seq<u8>, pos: int) -> u8 {
    buf[pos + OFF_TYPE]
}

/// The index of the first NUL byte at or after `start`, or `buf.len()` if
/// there is none.
pub open spec fn first_nul(buf: Seq<u8>, start: int) -> int
    decreases buf.len() - start,
{
    if start < 0 || start >= buf.len() {
        buf.len() as int
    } else if buf[start] == 0 {
        start
    } else {
        first_nul(buf, start + 1)
    }
}

/// The name of the record starting at `pos`: the bytes from the name offset
/// up to, and not including, the first NUL.
pub open spec fn name_of(buf: Seq<u8>, pos: int) -> Seq<u8> {
    buf.subrange(pos + OFF_NAME, first_nul(buf, pos + OFF_NAME))
}

/// A well-formed record at `pos`: the fixed header is present, the declared
/// length covers at least the header and lies within the buffer, and the
/// name's NUL terminator falls inside the declared length, so that decoding
/// never reads past what the record claims to own.
pub open spec fn record_ok(buf: Seq<u8>, pos: int) -> bool {
    &&& 0 <= pos
    &&& pos + DIRENT_HEADER_LEN <= buf.len()
    &&& DIRENT_HEADER_LEN <= rec_len_of(buf, pos)
    &&& pos + rec_len_of(buf, pos) <= buf.len()
    &&& exists|i: int| pos + OFF_NAME <= i < pos + rec_len_of(buf, pos) && buf[i] == 0
}

/// The decoded form of one record: a value independent of the buffer.
pub ghost struct DirEntryData {
    pub ino: u64,
    pub type_code: u8,
    pub name: Seq<u8>,
}

/// The entry decoded from the record starting at `pos`.
pub open spec fn entry_at(buf: Seq<u8>, pos: int) -> DirEntryData {
    DirEntryData { ino: ino_of(buf, pos), type_code: type_of(buf, pos), name: name_of(buf, pos) }
}

/// All entries decoded by walking the buffer from `pos`: one entry per
/// well-formed record, each step advancing by the record's declared length,
/// stopping when less than a header remains or a record is malformed.
pub open spec fn entries_from(buf: Seq<u8>, pos: int) -> Seq<DirEntryData>
    decreases buf.len() - pos,
{
    if pos < 0 || pos + DIRENT_HEADER_LEN > buf.len() {
        seq![]
    } else if !record_ok(buf, pos) {
        seq![]
    } else {
        seq![entry_at(buf, pos)] + entries_from(buf, pos + rec_len_of(buf, pos))
    }
}

/// All entries a stream yields from a sequence of kernel payloads: the
/// concatenation of the entries each payload decodes to from its start.
pub open spec fn session_entries(fills: Seq<Seq<u8>>) -> Seq<DirEntryData>
    decreases fills.len(),
{
    if fills.len() == 0 {
        seq![]
    } else {
        session_entries(fills.drop_last()) + entries_from(fills.last(), 0)
    }
}

/// `first_nul` is in range, lands on a NUL when one exists, and everything
/// before it is non-NUL.
pub proof fn lemma_first_nul_props(buf: Seq<u8>, start: int)
    requires
        0 <= start <= buf.len(),
    ensures
        start <= first_nul(buf, start) <= buf.len(),
        first_nul(buf, start) < buf.len() ==> buf[first_nul(buf, start)] == 0,
        forall|j: int| start <= j < first_nul(buf, start) ==> buf[j] != 0,
    decreases buf.len() - start,
{
    if start < buf.len() && buf[start] != 0 {
        lemma_first_nul_props(buf, start + 1);
    }
}

/// No NUL byte precedes `first_nul`.
pub proof fn lemma_first_nul_min(buf: Seq<u8>, start: int, k: int)
    requires
        0 <= start <= k < buf.len(),
        buf[k] == 0,
    ensures
        first_nul(buf, start) <= k,
    decreases k - start,
{
    if start < k && buf[start] != 0 {
        lemma_first_nul_min(buf, start + 1, k);
    }
}

/// Appending one payload to a session appends that payload's entries.
pub proof fn lemma_session_entries_push(fills: Seq<Seq<u8>>, p: Seq<u8>)
    ensures
        session_entries(fills.push(p)) == session_entries(fills) + entries_from(p, 0),
{
    assert(fills.push(p).drop_last() =~= fills);
    assert(fills.push(p).last() == p);
}

/// A well-formed record contributes itself followed by the entries after it.
pub proof fn lemma_entries_from_unfold(buf: Seq<u8>, pos: int)
    requires
        record_ok(buf, pos),
    ensures
        entries_from(buf, pos) == seq![entry_at(buf, pos)] + entries_from(
            buf,
            pos + rec_len_of(buf, pos),
        ),
{
}

/// A 16-bit field read byte-wise from an arbitrary, possibly unaligned,
/// buffer offset.
pub fn load_u16_le(buf: &Vec<u8>, pos: usize) -> (r: u16)
    requires
        pos + 2 <= buf@.len(),
    ensures
        r == u16_le(buf@[pos as int], buf@[pos as int + 1]),
{
    // Anchors the buffer's length to `usize` for the index arithmetic below.
    let _n: usize = buf.len();
    let b0: u8 = buf[pos];
    let b1: u8 = buf[pos + 1];
    (b0 as u16) | ((b1 as u16) << 8u16)
}

/// A 64-bit field read byte-wise from an arbitrary, possibly unaligned,
/// buffer offset.
pub fn load_u64_le(buf: &Vec<u8>, pos: usize) -> (r: u64)
    requires
        pos + 8 <= buf@.len(),
    ensures
        r == u64_le(
            buf@[pos as int],
            buf@[pos as int + 1],
            buf@[pos as int + 2],
            buf@[pos as int + 3],
            buf@[pos as int + 4],
            buf@[pos as int + 5],
            buf@[pos as int + 6],
            buf@[pos as int + 7],
        ),
{
    // Anchors the buffer's length to `usize` for the index arithmetic below.
    let _n: usize = buf.len();
    let b0: u8 = buf[pos];
    let b1: u8 = buf[pos + 1];
    let b2: u8 = buf[pos + 2];
    let b3: u8 = buf[pos + 3];
    let b4: u8 = buf[pos + 4];
    let b5: u8 = buf[pos + 5];
    let b6: u8 = buf[pos + 6];
    let b7: u8 = buf[pos + 7];
    (b0 as u64) | ((b1 as u64) << 8u64) | ((b2 as u64) << 16u64) | ((b3 as u64) << 24u64)
        | ((b4 as u64) << 32u64) | ((b5 as u64) << 40u64) | ((b6 as u64) << 48u64)
        | ((b7 as u64) << 56u64)
}

} // verus!
