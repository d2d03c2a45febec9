//! Codec for the fixed 106-byte escrow account record.  The layout is the
//! wire contract with the on-chain program and must be reproduced exactly:
//! buyer (32) | seller (32) | arbiter (32) | amount (8, little-endian) |
//! state (1) | vault_bump (1).

use vstd::prelude::*;
use vstd::bytes::{
    lemma_auto_spec_u64_to_from_le_bytes,
    spec_u64_from_le_bytes,
    spec_u64_to_le_bytes,
    u64_from_le_bytes,
};
use vstd::slice::slice_subrange;
use crate::state::{state_of_byte, EscrowState};

verus! {

/// Total size of an escrow account record in bytes.
pub const RECORD_LEN: usize = 106;

/// A decoded escrow account record.  Public keys are carried as raw
/// 32-byte values; the record never exposes a partially decoded state.
#[derive(Clone, Copy, Debug, PartialEq, Eq)]
pub struct EscrowRecord {
    pub buyer: [u8; 32],
    pub seller: [u8; 32],
    pub arbiter: [u8; 32],
    pub amount: u64,
    pub state: EscrowState,
    pub vault_bump: u8,
}

/// Why a byte buffer does not decode to an escrow record.
#[derive(Clone, Copy, Debug, PartialEq, Eq, Structural)]
pub enum LayoutError {
    /// The buffer is shorter than the 106-byte record; carries the length
    /// observed.
    TooShort { len: usize },
    /// The discriminant byte is outside `0..=5`; carries the byte observed.
    InvalidState { byte: u8 },
}

/// Copies 32 bytes out of `bytes` starting at `off`.
fn copy_key(bytes: &Vec<u8>, off: usize) -> (r: [u8; 32])
    requires
        off + 32 <= bytes@.len(),
    ensures
        r@ == bytes@.subrange(off as int, off as int + 32),
{
    let n = bytes.len();
    let mut r = [0u8; 32];
    let mut i: usize = 0;
    while i < 32
        invariant
            off + 32 <= bytes@.len(),
            bytes@.len() == n,
            i <= 32,
            r@.len() == 32,
            forall|j: int| 0 <= j < i ==> r@[j] == bytes@[off + j],
        decreases 32 - i,
    {
        r[i] = bytes[off + i];
        i += 1;
    }
    proof {
        assert(r@ =~= bytes@.subrange(off as int, off as int + 32));
    }
    r
}

/// Decodes a raw account buffer into an escrow record.  Fails with
/// `TooShort` on any buffer under 106 bytes and with `InvalidState` on a
/// discriminant byte outside `0..=5`; decoding is total otherwise.
pub fn decode(bytes: &Vec<u8>) -> (r: Result<EscrowRecord, LayoutError>)
    ensures
        bytes@.len() < RECORD_LEN ==> r == Err::<EscrowRecord, LayoutError>(
            LayoutError::TooShort { len: bytes@.len() as usize },
        ),
        bytes@.len() >= RECORD_LEN && bytes@[104] > 5 ==> r == Err::<EscrowRecord, LayoutError>(
            LayoutError::InvalidState { byte: bytes@[104] },
        ),
        bytes@.len() >= RECORD_LEN && bytes@[104] <= 5 ==> (r matches Ok(rec) && {
            &&& rec.buyer@ == bytes@.subrange(0, 32)
            &&& rec.seller@ == bytes@.subrange(32, 64)
            &&& rec.arbiter@ == bytes@.subrange(64, 96)
            &&& rec.amount == spec_u64_from_le_bytes(bytes@.subrange(96, 104))
            &&& rec.state == state_of_byte(bytes@[104])
            &&& rec.vault_bump == bytes@[105]
        }),
{
    if bytes.len() < RECORD_LEN {
        return Err(LayoutError::TooShort { len: bytes.len() });
    }
    let state_byte = bytes[104];
    let state = match crate::state::parse_state(state_byte) {
        Some(s) => s,
        None => {
            return Err(LayoutError::InvalidState { byte: state_byte });
        },
    };
    let buyer = copy_key(bytes, 0);
    let seller = copy_key(bytes, 32);
    let arbiter = copy_key(bytes, 64);
    let amount = u64_from_le_bytes(slice_subrange(bytes.as_slice(), 96, 104));
    let vault_bump = bytes[105];
    Ok(EscrowRecord { buyer, seller, arbiter, amount, state, vault_bump })
}

/// Reads the record state out of a raw account buffer, rejecting malformed
/// buffers exactly as `decode` does.
pub fn check_state(bytes: &Vec<u8>) -> (r: Result<EscrowState, LayoutError>)
    ensures
        bytes@.len() < RECORD_LEN ==> r == Err::<EscrowState, LayoutError>(
            LayoutError::TooShort { len: bytes@.len() as usize },
        ),
        bytes@.len() >= RECORD_LEN && bytes@[104] > 5 ==> r == Err::<EscrowState, LayoutError>(
            LayoutError::InvalidState { byte: bytes@[104] },
        ),
        bytes@.len() >= RECORD_LEN && bytes@[104] <= 5 ==> r == Ok::<EscrowState, LayoutError>(
            state_of_byte(bytes@[104]),
        ),
{
    match decode(bytes) {
        Ok(rec) => Ok(rec.state),
        Err(e) => Err(e),
    }
}

/// Law: the amount field survives a decode/re-encode round trip.  Reading
/// eight little-endian bytes as an integer and serializing that integer
/// again gives back the original bytes.
pub proof fn lemma_amount_round_trip(field: Seq<u8>)
    requires
        field.len() == 8,
    ensures
        spec_u64_to_le_bytes(spec_u64_from_le_bytes(field)) == field,
{
    lemma_auto_spec_u64_to_from_le_bytes();
}

} // verus!
