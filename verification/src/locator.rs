//! Finding the PE signature that the DOS header points to.
//!
//! The DOS header gives the offset of the signature from the start of the
//! file. The cursor only moves relative to where it stands, so the way there
//! is the difference between that offset and the position of the cursor. A
//! difference below zero would lead back into what has been read already and
//! is refused.

use crate::cursor::{ByteCursor, CursorView};
use crate::error::PEError;
use vstd::prelude::*;

verus! {

/// The signature `PE\0\0` that opens the PE headers.
pub const PE_SIGNATURE: [u8; 4] = [0x50, 0x45, 0x00, 0x00];

/// What looking for the PE signature comes to, with the cursor at `v` and the
/// signature expected at offset `e_lfanew` of the source.
pub open spec fn locate_outcome(v: CursorView, e_lfanew: u32) -> Result<[u8; 4], PEError> {
    let there = CursorView { source: v.source, position: e_lfanew as nat };
    if e_lfanew < v.position {
        Err(PEError::InvalidHeaderOffset)
    } else if !there.has(4) {
        Err(PEError::Truncated)
    } else if there.window(4) != PE_SIGNATURE@ {
        Err(PEError::InvalidPeSignature)
    } else {
        Ok(PE_SIGNATURE)
    }
}

/// Moves the cursor forward to offset `e_lfanew` and reads the PE signature
/// there. On success the cursor stands just behind the signature; on failure
/// it is where it was.
pub fn locate_pe_signature(cur: &mut ByteCursor, e_lfanew: u32) -> (res: Result<[u8; 4], PEError>)
    ensures
        res == locate_outcome(old(cur)@, e_lfanew),
        res is Ok ==> final(cur)@.source == old(cur)@.source,
        res is Ok ==> final(cur)@.position == e_lfanew + 4,
        res is Err ==> final(cur)@ == old(cur)@,
{
    let here: u64 = cur.position();
    let target: u64 = e_lfanew as u64;
    if target < here {
        return Err(PEError::InvalidHeaderOffset);
    }
    let mut c: ByteCursor = *cur;
    c.seek_relative((target - here) as i64)?;
    let signature: [u8; 4] = c.read_exact::<4>()?;
    let found: bool = signature[0] == PE_SIGNATURE[0]
        && signature[1] == PE_SIGNATURE[1]
        && signature[2] == PE_SIGNATURE[2]
        && signature[3] == PE_SIGNATURE[3];
    assert(found == (signature@ =~= PE_SIGNATURE@));
    if !found {
        return Err(PEError::InvalidPeSignature);
    }
    assert(signature =~= PE_SIGNATURE);
    *cur = c;
    Ok(signature)
}

} // verus!
