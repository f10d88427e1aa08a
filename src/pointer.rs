use vstd::prelude::*;

use crate::error::{truncated, DataPart, DecodeError, ErrorKind, ErrorView};

verus! {

/// The little-endian unsigned 32-bit value of the four bytes at `at`.
pub open spec fn ptr_value(s: Seq<u8>, at: int) -> nat {
    s[at] as nat + 0x100 * (s[at + 1] as nat) + 0x1_0000 * (s[at + 2] as nat) + 0x100_0000 * (
    s[at + 3] as nat)
}

/// The pointer stored at `at`, or a truncation if four bytes are not left there.
pub open spec fn ptr_at(s: Seq<u8>, at: int) -> Result<nat, ErrorView> {
    if 0 <= at && at + 4 <= s.len() {
        Ok(ptr_value(s, at))
    } else {
        Err(truncated(DataPart::Pointer))
    }
}

/// Reads the 4-byte little-endian pointer at `offset`.
pub fn parse_ptr(raw: &[u8], offset: usize) -> (r: Result<usize, DecodeError>)
    ensures
        match r {
            Ok(v) => ptr_at(raw@, offset as int) == Ok::<nat, ErrorView>(v as nat),
            Err(e) => ptr_at(raw@, offset as int) == Err::<nat, ErrorView>(e@),
        },
{
    if raw.len() < 4 || offset > raw.len() - 4 {
        return Err(DecodeError::new(ErrorKind::TruncatedData(DataPart::Pointer)));
    }
    let v: u32 = raw[offset] as u32 + 0x100 * (raw[offset + 1] as u32) + 0x1_0000 * (raw[offset
        + 2] as u32) + 0x100_0000 * (raw[offset + 3] as u32);
    Ok(v as usize)
}

} // verus!
