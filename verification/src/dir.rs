//! `DIR*`: a restartable stream of directory entries.
//!
//! `Dir` owns the buffer lifecycle and the record decoding of a directory
//! stream: it tracks the bytes most recently supplied by the kernel's
//! fill-buffer call, a cursor to the next unconsumed record, and an optional
//! pending seek. The kernel calls themselves (fill, seek) are performed by
//! the caller that owns the descriptor; `read_step` tells that caller what
//! the stream needs next, and `end_refill` / `take_pending_seek` feed the
//! outcome back in. Decoding is pure and verified: each step extracts one
//! record's fields with unaligned byte-wise loads and advances the cursor by
//! exactly the record's declared length.

use vstd::prelude::*;

use crate::dirent::{
    entries_from, entry_at, first_nul, lemma_entries_from_unfold, lemma_first_nul_min,
    lemma_first_nul_props, lemma_session_entries_push, load_u16_le, load_u64_le, rec_len_of,
    record_ok, session_entries, DirEntryData, DIRENT_HEADER_LEN, OFF_INO, OFF_NAME, OFF_RECLEN,
    OFF_TYPE,
};
use crate::file_type::{file_type_of, FileType};

verus! {

/// How much the requested buffer capacity grows before each refill: room for
/// 32 more record headers. A tunable that trades kernel-call frequency
/// against memory; it does not affect correctness.
pub const REFILL_GROWTH: usize = 32 * DIRENT_HEADER_LEN;

/// What a stream needs next in order to produce an entry.
#[derive(Clone, Copy, Debug, PartialEq, Eq)]
pub enum ReadStep {
    /// A pending seek must be issued to the kernel stream first.
    Seek(u64),
    /// Less than one record header is buffered: the buffer must be refilled.
    Refill,
    /// A record header is buffered: the next record can be decoded.
    Decode,
}

/// One decoded directory entry, independent of the stream's buffer.
#[derive(Debug)]
pub struct DirEntry {
    d_ino: u64,
    d_type: u8,
    name: Vec<u8>,
}

impl View for DirEntry {
    type V = DirEntryData;

    closed spec fn view(&self) -> DirEntryData {
        DirEntryData { ino: self.d_ino, type_code: self.d_type, name: self.name@ }
    }
}

impl DirEntry {
    /// Returns the file name of this directory entry, without the wire
    /// format's NUL terminator.
    pub fn file_name(&self) -> (r: &Vec<u8>)
        ensures
            r@ == self@.name,
    {
        &self.name
    }

    /// Returns the type of this directory entry.
    pub fn file_type(&self) -> (r: FileType)
        ensures
            r == file_type_of(self@.type_code),
    {
        FileType::from_dirent_d_type(self.d_type)
    }

    /// Return the inode number of this directory entry.
    pub fn ino(&self) -> (r: u64)
        ensures
            r == self@.ino,
    {
        self.d_ino
    }
}

/// `DIR*`: the buffered, restartable state of one directory stream.
pub struct Dir {
    buf: Vec<u8>,
    pos: usize,
    next: Option<u64>,
    fills: Ghost<Seq<Seq<u8>>>,
    emitted: Ghost<Seq<DirEntryData>>,
    supplied: Ghost<nat>,
    consumed: Ghost<nat>,
}

impl Dir {
    /// The buffered kernel bytes.
    pub closed spec fn buffer(&self) -> Seq<u8> {
        self.buf@
    }

    /// The byte offset of the next unconsumed record within the buffer.
    pub closed spec fn cursor(&self) -> nat {
        self.pos as nat
    }

    /// The pending seek target, if a rewind has not yet been applied.
    pub closed spec fn pending(&self) -> Option<u64> {
        self.next
    }

    /// The kernel payloads accepted since the stream started or last rewound.
    pub closed spec fn fill_history(&self) -> Seq<Seq<u8>> {
        self.fills@
    }

    /// The entries decoded since the stream started or last rewound.
    pub closed spec fn entries_read(&self) -> Seq<DirEntryData> {
        self.emitted@
    }

    /// The total bytes ever supplied by fill calls, across rewinds.
    pub closed spec fn bytes_supplied(&self) -> nat {
        self.supplied@
    }

    /// The total bytes ever consumed by decoding, across rewinds: the sum of
    /// the declared lengths of all decoded records.
    pub closed spec fn bytes_consumed(&self) -> nat {
        self.consumed@
    }

    /// The entries still decodable from the buffered bytes.
    pub open spec fn remaining_entries(&self) -> Seq<DirEntryData> {
        entries_from(self.buffer(), self.cursor() as int)
    }

    /// Well-formedness: the cursor lies within the buffer; decoding never
    /// outruns what the kernel supplied; and the entries decoded so far,
    /// followed by those still buffered, are exactly the entries determined
    /// by the kernel payloads of the current session.
    pub closed spec fn wf(&self) -> bool {
        &&& self.pos <= self.buf@.len()
        &&& self.consumed@ + self.buf@.len() - self.pos <= self.supplied@
        &&& self.emitted@ + entries_from(self.buf@, self.pos as int) == session_entries(
            self.fills@,
        )
    }

    /// Construct an empty stream: nothing buffered, no pending seek.
    pub fn new() -> (d: Dir)
        ensures
            d.wf(),
            d.buffer() == Seq::<u8>::empty(),
            d.cursor() == 0,
            d.pending() is None,
            d.fill_history() == Seq::<Seq<u8>>::empty(),
            d.entries_read() == Seq::<DirEntryData>::empty(),
            d.bytes_supplied() == 0,
            d.bytes_consumed() == 0,
    {
        let d = Dir {
            buf: Vec::new(),
            pos: 0,
            next: None,
            fills: Ghost(Seq::empty()),
            emitted: Ghost(Seq::empty()),
            supplied: Ghost(0),
            consumed: Ghost(0),
        };
        proof {
            assert(d.emitted@ + entries_from(d.buf@, 0) =~= session_entries(d.fills@));
        }
        d
    }

    /// `rewinddir(self)`: restart the stream. A seek to the beginning
    /// becomes pending and the buffered records are discarded (the cursor
    /// jumps to the buffer's end), so the next read is guaranteed to seek
    /// and then refill before decoding anything.
    pub fn rewind(&mut self)
        requires
            old(self).wf(),
        ensures
            final(self).wf(),
            final(self).buffer() == old(self).buffer(),
            final(self).cursor() == old(self).buffer().len(),
            final(self).pending() == Some(0u64),
            final(self).fill_history() == Seq::<Seq<u8>>::empty(),
            final(self).entries_read() == Seq::<DirEntryData>::empty(),
            final(self).bytes_supplied() == old(self).bytes_supplied(),
            final(self).bytes_consumed() == old(self).bytes_consumed(),
    {
        self.pos = self.buf.len();
        self.next = Some(0);
        self.fills = Ghost(Seq::empty());
        self.emitted = Ghost(Seq::empty());
        proof {
            assert(self.emitted@ + entries_from(self.buf@, self.pos as int) =~= session_entries(
                self.fills@,
            ));
        }
    }

    /// What the stream needs next: apply the pending seek if there is one;
    /// otherwise refill if less than one record header is buffered;
    /// otherwise decode.
    pub fn read_step(&self) -> (s: ReadStep)
        requires
            self.wf(),
        ensures
            s == (match self.pending() {
                Some(off) => ReadStep::Seek(off),
                None => if self.buffer().len() - self.cursor() < DIRENT_HEADER_LEN {
                    ReadStep::Refill
                } else {
                    ReadStep::Decode
                },
            }),
    {
        match self.next {
            Some(off) => ReadStep::Seek(off),
            None => {
                if self.buf.len() - self.pos < DIRENT_HEADER_LEN {
                    ReadStep::Refill
                } else {
                    ReadStep::Decode
                }
            },
        }
    }

    /// Take the pending seek target, clearing it. The caller issues the
    /// kernel seek; a failure there is the caller's to report, and is not
    /// retried: the target stays cleared either way.
    pub fn take_pending_seek(&mut self) -> (r: Option<u64>)
        requires
            old(self).wf(),
        ensures
            final(self).wf(),
            r == old(self).pending(),
            final(self).pending() is None,
            final(self).buffer() == old(self).buffer(),
            final(self).cursor() == old(self).cursor(),
            final(self).fill_history() == old(self).fill_history(),
            final(self).entries_read() == old(self).entries_read(),
            final(self).bytes_supplied() == old(self).bytes_supplied(),
            final(self).bytes_consumed() == old(self).bytes_consumed(),
    {
        let r = self.next;
        self.next = None;
        r
    }

    /// The buffer capacity the caller should pass to the next kernel fill
    /// call: the current buffer size plus a fixed growth increment.
    pub fn refill_capacity(&self) -> (cap: usize)
        requires
            self.wf(),
            self.buffer().len() + REFILL_GROWTH <= usize::MAX,
        ensures
            cap == self.buffer().len() + REFILL_GROWTH,
    {
        self.buf.len() + REFILL_GROWTH
    }

    /// Accept the outcome of a kernel fill call: `data` is the buffer the
    /// kernel wrote into and `nread` the byte count it reported. The buffered
    /// bytes are replaced by exactly that prefix and the cursor resets to 0.
    /// A zero count is the logical end of the stream, not an error, and is
    /// returned as `true`.
    pub fn end_refill(&mut self, data: Vec<u8>, nread: usize) -> (eof: bool)
        requires
            old(self).wf(),
            old(self).pending() is None,
            nread <= data@.len(),
            old(self).buffer().len() < old(self).cursor() + DIRENT_HEADER_LEN,
        ensures
            final(self).wf(),
            eof == (nread == 0),
            final(self).buffer() == data@.subrange(0, nread as int),
            final(self).cursor() == 0,
            final(self).pending() is None,
            final(self).fill_history() == old(self).fill_history().push(
                data@.subrange(0, nread as int),
            ),
            final(self).entries_read() == old(self).entries_read(),
            final(self).bytes_supplied() == old(self).bytes_supplied() + nread,
            final(self).bytes_consumed() == old(self).bytes_consumed(),
    {
        proof {
            assert(entries_from(old(self).buf@, old(self).pos as int) =~= Seq::<
                DirEntryData,
            >::empty());
            assert(old(self).emitted@ + Seq::<DirEntryData>::empty() =~= old(self).emitted@);
        }
        let mut d = data;
        d.truncate(nread);
        self.buf = d;
        self.pos = 0;
        self.fills = Ghost(self.fills@.push(self.buf@));
        self.supplied = Ghost(self.supplied@ + nread as nat);
        proof {
            lemma_session_entries_push(old(self).fills@, self.buf@);
        }
        nread == 0
    }

    /// Whether a well-formed record lies at the cursor: the declared record
    /// length covers at least a header, fits in the buffered bytes, and the
    /// name is NUL-terminated within it. When this is false and at least a
    /// header is buffered, the kernel's contract was violated; a caller
    /// should treat that as fatal rather than decode out of bounds.
    pub fn next_record_valid(&self) -> (r: bool)
        requires
            self.wf(),
        ensures
            r == record_ok(self.buffer(), self.cursor() as int),
    {
        let n: usize = self.buf.len();
        if n - self.pos < DIRENT_HEADER_LEN {
            return false;
        }
        let reclen: u16 = load_u16_le(&self.buf, self.pos + OFF_RECLEN);
        let reclen_us: usize = reclen as usize;
        if reclen_us < DIRENT_HEADER_LEN {
            return false;
        }
        if n - self.pos < reclen_us {
            return false;
        }
        let end: usize = self.pos + reclen_us;
        let mut i: usize = self.pos + OFF_NAME;
        while i < end
            invariant
                self.pos + OFF_NAME <= i <= end,
                end == self.pos + reclen_us,
                end <= self.buf@.len(),
                self.pos + DIRENT_HEADER_LEN <= self.buf@.len(),
                DIRENT_HEADER_LEN <= reclen_us,
                reclen_us == rec_len_of(self.buf@, self.pos as int),
                forall|j: int| self.pos + OFF_NAME <= j < i ==> self.buf@[j] != 0,
            decreases end - i,
        {
            if self.buf[i] == 0 {
                proof {
                    assert(self.buf@[i as int] == 0);
                    assert(record_ok(self.buffer(), self.cursor() as int));
                }
                return true;
            }
            i = i + 1;
        }
        false
    }

    /// Decode the record at the cursor and advance the cursor by exactly its
    /// declared length. Requires a well-formed record at the cursor (see
    /// [`Self::next_record_valid`]) and no pending seek: a pending seek must
    /// be applied before any record is decoded.
    pub fn decode_next(&mut self) -> (e: DirEntry)
        requires
            old(self).wf(),
            old(self).pending() is None,
            record_ok(old(self).buffer(), old(self).cursor() as int),
        ensures
            final(self).wf(),
            e@ == entry_at(old(self).buffer(), old(self).cursor() as int),
            final(self).buffer() == old(self).buffer(),
            final(self).cursor() == old(self).cursor() + rec_len_of(
                old(self).buffer(),
                old(self).cursor() as int,
            ),
            final(self).pending() is None,
            final(self).fill_history() == old(self).fill_history(),
            final(self).entries_read() == old(self).entries_read().push(e@),
            final(self).bytes_supplied() == old(self).bytes_supplied(),
            final(self).bytes_consumed() == old(self).bytes_consumed() + rec_len_of(
                old(self).buffer(),
                old(self).cursor() as int,
            ),
    {
        let ghost gbuf = self.buf@;
        let ghost gpos = self.pos as int;
        // Anchors the buffer's length to `usize` for the index arithmetic below.
        let _n: usize = self.buf.len();
        let pos: usize = self.pos;
        let reclen: u16 = load_u16_le(&self.buf, pos + OFF_RECLEN);
        let reclen_us: usize = reclen as usize;

        // The inode and type fields, loaded without any alignment assumption.
        let ino: u64 = load_u64_le(&self.buf, pos + OFF_INO);
        let tc: u8 = self.buf[pos + OFF_TYPE];

        // Scan for the name's NUL terminator; the record's well-formedness
        // guarantees one inside the declared record length.
        let name_start: usize = pos + OFF_NAME;
        proof {
            lemma_first_nul_props(gbuf, name_start as int);
            let k = choose|k: int|
                gpos + OFF_NAME <= k < gpos + rec_len_of(gbuf, gpos) && gbuf[k] == 0;
            lemma_first_nul_min(gbuf, name_start as int, k);
        }
        let mut i: usize = name_start;
        while self.buf[i] != 0
            invariant
                self.buf@ == gbuf,
                gbuf.len() <= usize::MAX,
                name_start <= i <= first_nul(gbuf, name_start as int),
                first_nul(gbuf, name_start as int) < gbuf.len(),
                gbuf[first_nul(gbuf, name_start as int)] == 0,
                forall|j: int| name_start <= j < first_nul(gbuf, name_start as int) ==> gbuf[j]
                    != 0,
            decreases first_nul(gbuf, name_start as int) - i,
        {
            i = i + 1;
        }
        let nul_pos: usize = i;

        // Copy the name out of the buffer, so the entry outlives any refill.
        let mut name: Vec<u8> = Vec::new();
        let mut j: usize = name_start;
        while j < nul_pos
            invariant
                self.buf@ == gbuf,
                gbuf.len() <= usize::MAX,
                name_start <= j <= nul_pos,
                nul_pos < gbuf.len(),
                name@ == gbuf.subrange(name_start as int, j as int),
            decreases nul_pos - j,
        {
            let b: u8 = self.buf[j];
            name.push(b);
            proof {
                assert(gbuf.subrange(name_start as int, j as int).push(b) =~= gbuf.subrange(
                    name_start as int,
                    j + 1,
                ));
            }
            j = j + 1;
        }

        // The only place the cursor moves during decode: by the declared
        // record length, unconditionally, so the next decode starts exactly
        // at the next record.
        self.pos = pos + reclen_us;

        let e = DirEntry { d_ino: ino, d_type: tc, name };
        self.emitted = Ghost(self.emitted@.push(e@));
        self.consumed = Ghost(self.consumed@ + reclen_us as nat);
        proof {
            assert(e@.name =~= crate::dirent::name_of(gbuf, gpos));
            assert(e@ == entry_at(gbuf, gpos));
            lemma_entries_from_unfold(gbuf, gpos);
            assert(old(self).emitted@ + (seq![e@] + entries_from(gbuf, gpos + reclen_us)) =~= old(
                self,
            ).emitted@.push(e@) + entries_from(gbuf, gpos + reclen_us));
        }
        e
    }

    /// The current cursor offset within the buffered bytes.
    pub fn position(&self) -> (r: usize)
        ensures
            r == self.cursor(),
    {
        self.pos
    }

    /// The number of bytes currently buffered.
    pub fn buffered_len(&self) -> (r: usize)
        ensures
            r == self.buffer().len(),
    {
        self.buf.len()
    }
}

/// Decoding never outruns the kernel: over any sequence of reads, across
/// rewinds, the cumulative declared lengths of the decoded records never
/// exceed the total bytes the fill calls ever supplied.
pub proof fn lemma_consumed_within_supplied(d: &Dir)
    requires
        d.wf(),
    ensures
        d.bytes_consumed() <= d.bytes_supplied(),
{
}

/// Replaying a drain is deterministic: a stream's entries are a function of
/// the kernel payloads it accepted alone. Two well-formed streams that
/// accepted equal payload sequences in their sessions and have no buffered
/// entries left have decoded exactly the same entries in the same order; in
/// particular, a rewound stream fed the same payloads as an earlier drain
/// reproduces it entry for entry.
pub proof fn lemma_replay(d1: &Dir, d2: &Dir)
    requires
        d1.wf(),
        d2.wf(),
        d1.fill_history() == d2.fill_history(),
        d1.remaining_entries().len() == 0,
        d2.remaining_entries().len() == 0,
    ensures
        d1.entries_read() == d2.entries_read(),
{
    assert(d1.entries_read() + d1.remaining_entries() =~= d1.entries_read());
    assert(d2.entries_read() + d2.remaining_entries() =~= d2.entries_read());
}

} // verus!
