//! Directory-entry iteration and name lookup: a directory inode's data
//! region is a packed run of variable-length records, each declaring its own
//! total length; the records must partition the region exactly, and a record
//! length of zero or one overrunning the region is a structural error.

use vstd::prelude::*;

verus! {

use crate::bytes::{
    le_val,
    read_u8,
    read_u16,
    read_u32,
    read_bytes,
    lemma_le_val_1,
    lemma_le_val_2,
    lemma_le_val_4,
};
use crate::error::FsError;
use crate::group::InodeNumber;

/// One directory record: the child's inode number, the record's total
/// on-disk length (used purely to advance the cursor), and the name bytes.
#[derive(Debug)]
pub struct DirectoryEntry {
    pub inode: InodeNumber,
    pub record_length: u16,
    pub name: Vec<u8>,
}

/// The mathematical content of a directory record.
pub struct DirEntryView {
    pub inode: u64,
    pub record_length: u16,
    pub name: Seq<u8>,
}

impl View for DirectoryEntry {
    type V = DirEntryView;

    open spec fn view(&self) -> DirEntryView {
        DirEntryView {
            inode: self.inode.0,
            record_length: self.record_length,
            name: self.name@,
        }
    }
}

/// The views of a run of decoded entries, in order.
pub open spec fn entries_view(es: Seq<DirectoryEntry>) -> Seq<DirEntryView> {
    es.map_values(|e: DirectoryEntry| e@)
}

/// What decoding one directory record at `off` within `s` yields. The
/// name-length byte at `off + 6` is read first; then the inode number at
/// `off`, the record length at `off + 4` and the name bytes at `off + 8`.
pub open spec fn spec_entry(s: Seq<u8>, off: int) -> Result<DirEntryView, FsError> {
    if off + 7 > s.len() {
        Err(FsError::OutOfBounds { offset: off as u64, len: 7 })
    } else {
        let name_len = le_val(s, off + 6, 1);
        if off + 8 + name_len > s.len() {
            Err(FsError::OutOfBounds { offset: off as u64, len: (8 + name_len) as u64 })
        } else {
            Ok(
                DirEntryView {
                    inode: le_val(s, off, 4) as u64,
                    record_length: le_val(s, off + 4, 2) as u16,
                    name: s.subrange(off + 8, off + 8 + name_len),
                },
            )
        }
    }
}

impl DirectoryEntry {
    /// Decode the directory record at `offset` within `data`.
    pub fn decode(data: &[u8], offset: u64) -> (r: Result<DirectoryEntry, FsError>)
        ensures
            match r {
                Ok(en) => spec_entry(data@, offset as int) == Ok::<DirEntryView, FsError>(en@),
                Err(e) => spec_entry(data@, offset as int) == Err::<DirEntryView, FsError>(e),
            },
    {
        let n = data.len() as u64;
        if offset >= n || n - offset < 7 {
            return Err(FsError::OutOfBounds { offset, len: 7 });
        }
        let name_len = match read_u8(data, offset + 6) {
            Ok(v) => v,
            Err(e) => {
                return Err(e);
            },
        };
        proof {
            lemma_le_val_1(data@, offset as int + 6);
        }
        if n - offset < 8 + (name_len as u64) {
            return Err(FsError::OutOfBounds { offset, len: 8 + (name_len as u64) });
        }
        let inode = match read_u32(data, offset) {
            Ok(v) => v,
            Err(e) => {
                return Err(e);
            },
        };
        let record_length = match read_u16(data, offset + 4) {
            Ok(v) => v,
            Err(e) => {
                return Err(e);
            },
        };
        let name = match read_bytes(data, offset + 8, name_len as u64) {
            Ok(v) => v,
            Err(e) => {
                return Err(e);
            },
        };
        proof {
            lemma_le_val_4(data@, offset as int);
            lemma_le_val_2(data@, offset as int + 4);
        }
        Ok(DirectoryEntry { inode: InodeNumber(inode as u64), record_length, name })
    }
}

/// Prepend already-decoded entries to the outcome of decoding the rest.
pub open spec fn concat_result(pre: Seq<DirEntryView>, r: Result<Seq<DirEntryView>, FsError>) -> Result<
    Seq<DirEntryView>,
    FsError,
> {
    match r {
        Ok(rest) => Ok(pre + rest),
        Err(e) => Err(e),
    }
}

/// What walking the records of `s` from `cursor` to the region's end
/// yields: the remaining records in order, stopping exactly at the end. A
/// record whose length is zero or would advance the cursor past the end is
/// a structural error; a record whose fields run past the end is a bounds
/// error.
pub open spec fn spec_entries(s: Seq<u8>, cursor: int) -> Result<Seq<DirEntryView>, FsError>
    decreases s.len() - cursor,
{
    if cursor >= s.len() {
        Ok(Seq::empty())
    } else {
        match spec_entry(s, cursor) {
            Err(e) => Err(e),
            Ok(ev) => if ev.record_length == 0 || cursor + ev.record_length > s.len() {
                Err(
                    FsError::BadDirEntryLength {
                        offset: cursor as u64,
                        record_length: ev.record_length,
                    },
                )
            } else {
                concat_result(seq![ev], spec_entries(s, cursor + ev.record_length))
            },
        }
    }
}

proof fn lemma_concat_result_assoc(
    pre: Seq<DirEntryView>,
    mid: Seq<DirEntryView>,
    r: Result<Seq<DirEntryView>, FsError>,
)
    ensures
        concat_result(pre, concat_result(mid, r)) == concat_result(pre + mid, r),
{
    match r {
        Ok(rest) => {
            assert(pre + (mid + rest) =~= (pre + mid) + rest);
        },
        Err(_) => {},
    }
}

/// Decode the full run of directory records that `data` holds, from its
/// start to its end exactly.
pub fn dir_entries(data: &[u8]) -> (r: Result<Vec<DirectoryEntry>, FsError>)
    ensures
        match r {
            Ok(es) => spec_entries(data@, 0) == Ok::<Seq<DirEntryView>, FsError>(
                entries_view(es@),
            ),
            Err(e) => spec_entries(data@, 0) == Err::<Seq<DirEntryView>, FsError>(e),
        },
{
    let total = data.len() as u64;
    let mut entries: Vec<DirectoryEntry> = Vec::new();
    let mut offset: u64 = 0;
    proof {
        assert(entries_view(entries@) =~= Seq::<DirEntryView>::empty());
        if spec_entries(data@, 0) is Ok {
            assert(entries_view(entries@) + spec_entries(data@, 0)->Ok_0 =~= spec_entries(
                data@,
                0,
            )->Ok_0);
        }
    }
    while offset < total
        invariant
            total == data@.len(),
            offset <= total,
            spec_entries(data@, 0) == concat_result(
                entries_view(entries@),
                spec_entries(data@, offset as int),
            ),
        decreases total - offset,
    {
        let entry = match DirectoryEntry::decode(data, offset) {
            Ok(en) => en,
            Err(e) => {
                return Err(e);
            },
        };
        let record_length = entry.record_length;
        if record_length == 0 || (total - offset) < record_length as u64 {
            return Err(FsError::BadDirEntryLength { offset, record_length });
        }
        proof {
            let ghost ev = entry@;
            let ghost rl = record_length as int;
            assert(spec_entries(data@, offset as int) == concat_result(
                seq![ev],
                spec_entries(data@, offset as int + rl),
            ));
            lemma_concat_result_assoc(
                entries_view(entries@),
                seq![ev],
                spec_entries(data@, offset as int + rl),
            );
            assert(entries_view(entries@) + seq![ev] =~= entries_view(entries@.push(entry)));
        }
        entries.push(entry);
        offset = offset + record_length as u64;
    }
    Ok(entries)
}

/// The record lengths of a run of entries, summed.
pub open spec fn sum_record_lengths(evs: Seq<DirEntryView>) -> int
    decreases evs.len(),
{
    if evs.len() == 0 {
        0
    } else {
        evs[0].record_length + sum_record_lengths(evs.drop_first())
    }
}

/// Directory records partition their region exactly: whenever walking the
/// records from `cursor` succeeds, the record lengths of the entries it
/// yields sum to precisely the bytes walked, leaving no gap and no overrun.
pub proof fn lemma_entries_partition(s: Seq<u8>, cursor: int)
    requires
        0 <= cursor <= s.len(),
        spec_entries(s, cursor) is Ok,
    ensures
        sum_record_lengths(spec_entries(s, cursor)->Ok_0) == s.len() - cursor,
    decreases s.len() - cursor,
{
    if cursor >= s.len() {
    } else {
        let ev = spec_entry(s, cursor)->Ok_0;
        let rl = ev.record_length as int;
        lemma_entries_partition(s, cursor + rl);
        let rest = spec_entries(s, cursor + rl)->Ok_0;
        assert((seq![ev] + rest).drop_first() =~= rest);
        assert((seq![ev] + rest)[0] == ev);
    }
}

/// A record a directory region can actually pack: a 32-bit inode number, a
/// name of at most 255 bytes, and a record length that covers at least the
/// eight fixed header bytes plus the name.
pub open spec fn spec_entry_wf(ev: DirEntryView) -> bool {
    &&& ev.inode < 0x1_0000_0000
    &&& ev.name.len() <= 255
    &&& 8 + ev.name.len() <= ev.record_length
}

/// The on-disk serialization of one directory record: the inode number, the
/// record length, the name length, a reserved byte, the name, and zero
/// padding out to the declared record length.
pub open spec fn spec_entry_bytes(ev: DirEntryView) -> Seq<u8> {
    seq![
        (ev.inode % 0x100) as u8,
        ((ev.inode / 0x100) % 0x100) as u8,
        ((ev.inode / 0x10000) % 0x100) as u8,
        ((ev.inode / 0x1000000) % 0x100) as u8,
        (ev.record_length % 0x100) as u8,
        ((ev.record_length / 0x100) % 0x100) as u8,
        ev.name.len() as u8,
        0u8,
    ] + ev.name + Seq::new((ev.record_length - 8 - ev.name.len()) as nat, |i: int| 0u8)
}

/// The concatenation of a run of serialized records.
pub open spec fn spec_entries_bytes(evs: Seq<DirEntryView>) -> Seq<u8>
    decreases evs.len(),
{
    if evs.len() == 0 {
        Seq::empty()
    } else {
        spec_entry_bytes(evs[0]) + spec_entries_bytes(evs.drop_first())
    }
}

proof fn lemma_recompose_2(v: int)
    requires
        0 <= v < 0x10000,
    ensures
        (v % 0x100) + 0x100 * ((v / 0x100) % 0x100) == v,
{
    vstd::arithmetic::div_mod::lemma_fundamental_div_mod(v, 0x100);
    vstd::arithmetic::div_mod::lemma_div_is_ordered(v, 0xFFFF, 0x100);
    vstd::arithmetic::div_mod::lemma_small_mod((v / 0x100) as nat, 0x100);
}

proof fn lemma_recompose_4(v: int)
    requires
        0 <= v < 0x1_0000_0000,
    ensures
        (v % 0x100) + 0x100 * ((v / 0x100) % 0x100) + 0x10000 * ((v / 0x10000) % 0x100)
            + 0x1000000 * ((v / 0x1000000) % 0x100) == v,
{
    vstd::arithmetic::div_mod::lemma_fundamental_div_mod(v, 0x100);
    vstd::arithmetic::div_mod::lemma_fundamental_div_mod(v / 0x100, 0x100);
    vstd::arithmetic::div_mod::lemma_div_denominator(v, 0x100, 0x100);
    vstd::arithmetic::div_mod::lemma_fundamental_div_mod(v / 0x10000, 0x100);
    vstd::arithmetic::div_mod::lemma_div_denominator(v, 0x10000, 0x100);
    vstd::arithmetic::div_mod::lemma_div_is_ordered(v, 0xFFFF_FFFF, 0x1000000);
    vstd::arithmetic::div_mod::lemma_small_mod((v / 0x1000000) as nat, 0x100);
}

proof fn lemma_parse_serialized_entry(s: Seq<u8>, c: int, ev: DirEntryView)
    requires
        spec_entry_wf(ev),
        0 <= c,
        c + ev.record_length <= s.len(),
        s.subrange(c, c + ev.record_length) == spec_entry_bytes(ev),
    ensures
        spec_entry(s, c) == Ok::<DirEntryView, FsError>(ev),
{
    let ser = spec_entry_bytes(ev);
    let rl = ev.record_length as int;
    let nl = ev.name.len() as int;
    assert(ser.len() == rl);
    assert forall|i: int| 0 <= i < rl implies s[c + i] == ser[i] by {
        assert(s.subrange(c, c + rl)[i] == s[c + i]);
    }
    assert(ser[0] == (ev.inode % 0x100) as u8);
    assert(ser[1] == ((ev.inode / 0x100) % 0x100) as u8);
    assert(ser[2] == ((ev.inode / 0x10000) % 0x100) as u8);
    assert(ser[3] == ((ev.inode / 0x1000000) % 0x100) as u8);
    assert(ser[4] == (ev.record_length % 0x100) as u8);
    assert(ser[5] == ((ev.record_length / 0x100) % 0x100) as u8);
    assert(ser[6] == ev.name.len() as u8);
    lemma_le_val_1(s, c + 6);
    assert(le_val(s, c + 6, 1) == nl);
    lemma_le_val_4(s, c);
    lemma_recompose_4(ev.inode as int);
    assert(le_val(s, c, 4) == ev.inode);
    lemma_le_val_2(s, c + 4);
    lemma_recompose_2(ev.record_length as int);
    assert(le_val(s, c + 4, 2) == ev.record_length);
    assert forall|i: int| 0 <= i < nl implies s[c + 8 + i] == ev.name[i] by {
        assert(ser[8 + i] == ev.name[i]);
    }
    assert(s.subrange(c + 8, c + 8 + nl) =~= ev.name);
}

proof fn lemma_parse_serialized_run(s: Seq<u8>, c: int, evs: Seq<DirEntryView>)
    requires
        0 <= c <= s.len(),
        forall|i: int| 0 <= i < evs.len() ==> spec_entry_wf(#[trigger] evs[i]),
        s.subrange(c, s.len() as int) == spec_entries_bytes(evs),
    ensures
        spec_entries(s, c) == Ok::<Seq<DirEntryView>, FsError>(evs),
    decreases evs.len(),
{
    reveal_with_fuel(spec_entries_bytes, 2);
    if evs.len() == 0 {
        assert(spec_entries_bytes(evs) == Seq::<u8>::empty());
        assert(s.len() - c == 0);
        assert(evs =~= Seq::<DirEntryView>::empty());
    } else {
        let ev = evs[0];
        assert(spec_entry_wf(ev));
        let rl = ev.record_length as int;
        let rest = evs.drop_first();
        let ser = spec_entry_bytes(ev);
        let ser_rest = spec_entries_bytes(rest);
        assert(spec_entries_bytes(evs) == ser + ser_rest);
        assert(ser.len() == rl);
        assert(s.len() - c == ser.len() + ser_rest.len());
        assert forall|i: int| 0 <= i < s.len() - c implies s[c + i] == (ser + ser_rest)[i] by {
            assert(s.subrange(c, s.len() as int)[i] == s[c + i]);
        }
        assert(s.subrange(c, c + rl) =~= ser) by {
            assert forall|i: int| 0 <= i < rl implies s.subrange(c, c + rl)[i] == ser[i] by {
                assert(s[c + i] == (ser + ser_rest)[i]);
                assert((ser + ser_rest)[i] == ser[i]);
            }
        }
        lemma_parse_serialized_entry(s, c, ev);
        assert forall|i: int| 0 <= i < rest.len() implies spec_entry_wf(#[trigger] rest[i]) by {
            assert(rest[i] == evs[i + 1]);
        }
        assert(s.subrange(c + rl, s.len() as int) =~= ser_rest) by {
            assert forall|i: int|
                0 <= i < s.len() - (c + rl) implies s.subrange(c + rl, s.len() as int)[i]
                == ser_rest[i] by {
                assert(s[c + rl + i] == (ser + ser_rest)[rl + i]);
                assert((ser + ser_rest)[rl + i] == ser_rest[i]);
            }
        }
        lemma_parse_serialized_run(s, c + rl, rest);
        assert(spec_entries(s, c) == concat_result(
            seq![ev],
            Ok::<Seq<DirEntryView>, FsError>(rest),
        ));
        assert(seq![ev] + rest =~= evs);
    }
}

/// Parsing is the inverse of packing: over a region that is exactly the
/// concatenation of well-formed packed records, walking the directory
/// succeeds and yields exactly those records — one entry per packed
/// record, terminating at the region's end with zero leftover bytes.
pub proof fn lemma_entries_roundtrip(evs: Seq<DirEntryView>)
    requires
        forall|i: int| 0 <= i < evs.len() ==> spec_entry_wf(#[trigger] evs[i]),
    ensures
        spec_entries(spec_entries_bytes(evs), 0) == Ok::<Seq<DirEntryView>, FsError>(evs),
{
    let s = spec_entries_bytes(evs);
    assert(s.subrange(0, s.len() as int) =~= s);
    lemma_parse_serialized_run(s, 0, evs);
}

/// The first entry whose name equals `name`, scanning in on-disk order, as
/// the inode number it maps the name to.
pub open spec fn spec_first_match(evs: Seq<DirEntryView>, name: Seq<u8>) -> Option<u64>
    decreases evs.len(),
{
    if evs.len() == 0 {
        None
    } else if evs[0].name == name {
        Some(evs[0].inode)
    } else {
        spec_first_match(evs.drop_first(), name)
    }
}

/// Byte-for-byte equality of two byte runs.
pub fn bytes_eq(a: &[u8], b: &[u8]) -> (r: bool)
    ensures
        r == (a@ == b@),
{
    if a.len() != b.len() {
        return false;
    }
    let mut i: usize = 0;
    while i < a.len()
        invariant
            i <= a@.len(),
            a@.len() == b@.len(),
            forall|k: int| 0 <= k < i ==> a@[k] == b@[k],
        decreases a@.len() - i,
    {
        if a[i] != b[i] {
            return false;
        }
        i = i + 1;
    }
    proof {
        assert(a@ =~= b@);
    }
    true
}

/// Scan `entries` in order and return the inode number of the first entry
/// whose name equals `name` byte for byte, or none when no entry matches.
pub fn find_entry(entries: &Vec<DirectoryEntry>, name: &[u8]) -> (r: Option<InodeNumber>)
    ensures
        match r {
            Some(child) => spec_first_match(entries_view(entries@), name@) == Some(child.0),
            None => spec_first_match(entries_view(entries@), name@) is None,
        },
{
    let ghost full = entries_view(entries@);
    let mut i: usize = 0;
    proof {
        assert(full.skip(0) =~= full);
    }
    while i < entries.len()
        invariant
            i <= entries@.len(),
            full == entries_view(entries@),
            full.len() == entries@.len(),
            spec_first_match(full, name@) == spec_first_match(full.skip(i as int), name@),
        decreases entries@.len() - i,
    {
        let entry = &entries[i];
        proof {
            assert(full.skip(i as int)[0] == full[i as int]);
            assert(full[i as int] == entries@[i as int]@);
            assert(full.skip(i as int).drop_first() =~= full.skip(i as int + 1));
        }
        if bytes_eq(entry.name.as_slice(), name) {
            return Some(entry.inode);
        }
        i = i + 1;
    }
    proof {
        assert(full.skip(entries@.len() as int).len() == 0);
    }
    None
}

} // verus!
