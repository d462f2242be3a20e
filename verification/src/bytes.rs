//! Fixed-width little-endian field decoding at arbitrary offsets within a
//! byte region, every read bounds-checked against the region's extent.

use vstd::prelude::*;

verus! {

use crate::error::FsError;

/// The value of the `width`-byte little-endian integer of `s` starting at
/// `off`: the byte at `off` is least significant.
pub open spec fn le_val(s: Seq<u8>, off: int, width: nat) -> nat
    decreases width,
{
    if width == 0 {
        0
    } else {
        (s[off] as nat) + 256 * le_val(s, off + 1, (width - 1) as nat)
    }
}

/// A one-byte field is the byte itself.
pub proof fn lemma_le_val_1(s: Seq<u8>, off: int)
    ensures
        le_val(s, off, 1) == s[off] as nat,
{
    reveal_with_fuel(le_val, 2);
}

/// A two-byte field written out, with its range.
pub proof fn lemma_le_val_2(s: Seq<u8>, off: int)
    ensures
        le_val(s, off, 2) == s[off] as nat + 0x100 * (s[off + 1] as nat),
        le_val(s, off, 2) < 0x10000,
{
    reveal_with_fuel(le_val, 3);
}

/// A four-byte field written out, with its range.
pub proof fn lemma_le_val_4(s: Seq<u8>, off: int)
    ensures
        le_val(s, off, 4) == s[off] as nat + 0x100 * (s[off + 1] as nat) + 0x10000 * (s[off
            + 2] as nat) + 0x1000000 * (s[off + 3] as nat),
        le_val(s, off, 4) < 0x1_0000_0000,
{
    reveal_with_fuel(le_val, 5);
}

/// Decode the byte at `offset` within `data`.
pub fn read_u8(data: &[u8], offset: u64) -> (r: Result<u8, FsError>)
    ensures
        offset + 1 <= data@.len() ==> (r matches Ok(v) && v as nat == le_val(
            data@,
            offset as int,
            1,
        )),
        offset + 1 > data@.len() ==> r == Err::<u8, FsError>(
            FsError::OutOfBounds { offset, len: 1 },
        ),
{
    let n: usize = data.len();
    if offset >= n as u64 {
        return Err(FsError::OutOfBounds { offset, len: 1 });
    }
    let b = data[offset as usize];
    proof {
        lemma_le_val_1(data@, offset as int);
    }
    Ok(b)
}

/// Decode the little-endian 16-bit integer at `offset` within `data`.
pub fn read_u16(data: &[u8], offset: u64) -> (r: Result<u16, FsError>)
    ensures
        offset + 2 <= data@.len() ==> (r matches Ok(v) && v as nat == le_val(
            data@,
            offset as int,
            2,
        )),
        offset + 2 > data@.len() ==> r == Err::<u16, FsError>(
            FsError::OutOfBounds { offset, len: 2 },
        ),
{
    let n: usize = data.len();
    if offset >= n as u64 || (n as u64) - offset < 2 {
        return Err(FsError::OutOfBounds { offset, len: 2 });
    }
    let i = offset as usize;
    let b0 = data[i];
    let b1 = data[i + 1];
    let v: u16 = (b0 as u16) + 0x100 * (b1 as u16);
    proof {
        lemma_le_val_2(data@, offset as int);
    }
    Ok(v)
}

/// Decode the little-endian 32-bit integer at `offset` within `data`.
pub fn read_u32(data: &[u8], offset: u64) -> (r: Result<u32, FsError>)
    ensures
        offset + 4 <= data@.len() ==> (r matches Ok(v) && v as nat == le_val(
            data@,
            offset as int,
            4,
        )),
        offset + 4 > data@.len() ==> r == Err::<u32, FsError>(
            FsError::OutOfBounds { offset, len: 4 },
        ),
{
    let n: usize = data.len();
    if offset >= n as u64 || (n as u64) - offset < 4 {
        return Err(FsError::OutOfBounds { offset, len: 4 });
    }
    let i = offset as usize;
    let b0 = data[i];
    let b1 = data[i + 1];
    let b2 = data[i + 2];
    let b3 = data[i + 3];
    let v: u32 = (b0 as u32) + 0x100 * (b1 as u32) + 0x10000 * (b2 as u32) + 0x1000000 * (
    b3 as u32);
    proof {
        lemma_le_val_4(data@, offset as int);
    }
    Ok(v)
}

/// The 64-bit value split across a low 32-bit field at `lo_off` and a high
/// 32-bit field at `hi_off`, the recurring on-disk split pattern.
pub open spec fn le_lohi(s: Seq<u8>, lo_off: int, hi_off: int) -> nat {
    le_val(s, lo_off, 4) + 0x1_0000_0000 * le_val(s, hi_off, 4)
}

/// Compose one 64-bit value from a 32-bit low field and a 32-bit high field
/// at two possibly non-adjacent offsets; the low field is read first.
pub fn read_u64_lohi(data: &[u8], lo_offset: u64, hi_offset: u64) -> (r: Result<u64, FsError>)
    ensures
        lo_offset + 4 <= data@.len() && hi_offset + 4 <= data@.len() ==> (r matches Ok(v)
            && v as nat == le_lohi(data@, lo_offset as int, hi_offset as int)),
        lo_offset + 4 > data@.len() ==> r == Err::<u64, FsError>(
            FsError::OutOfBounds { offset: lo_offset, len: 4 },
        ),
        lo_offset + 4 <= data@.len() && hi_offset + 4 > data@.len() ==> r == Err::<u64, FsError>(
            FsError::OutOfBounds { offset: hi_offset, len: 4 },
        ),
{
    let lo = match read_u32(data, lo_offset) {
        Ok(v) => v,
        Err(e) => {
            return Err(e);
        },
    };
    let hi = match read_u32(data, hi_offset) {
        Ok(v) => v,
        Err(e) => {
            return Err(e);
        },
    };
    Ok((lo as u64) + 0x1_0000_0000 * (hi as u64))
}

/// Copy out the `len`-byte run at `offset` within `data`.
pub fn read_bytes(data: &[u8], offset: u64, len: u64) -> (r: Result<Vec<u8>, FsError>)
    ensures
        offset + len <= data@.len() ==> (r matches Ok(v) && v@ == data@.subrange(
            offset as int,
            offset + len,
        )),
        offset + len > data@.len() ==> r == Err::<Vec<u8>, FsError>(
            FsError::OutOfBounds { offset, len },
        ),
{
    let n: usize = data.len();
    if offset > n as u64 || (n as u64) - offset < len {
        return Err(FsError::OutOfBounds { offset, len });
    }
    let i = offset as usize;
    let l = len as usize;
    let run = vstd::slice::slice_subrange(data, i, i + l);
    Ok(vstd::slice::slice_to_vec(run))
}

} // verus!
