//! The instruction builder's wire format: an ordered account list and the
//! payload `[opcode 0, encoded strategy, amount as 8 little-endian bytes]`.

use vstd::prelude::*;

use crate::pda::system_program_id;
use crate::strategy::{spec_encode, encode, YieldStrategy};

verus! {

/// One account reference in an instruction: a 32-byte identifier, whether
/// the account must sign, and whether it may be written.
#[derive(Clone, Copy, Debug, PartialEq, Eq)]
pub struct AccountRef {
    pub pubkey: [u8; 32],
    pub is_signer: bool,
    pub is_writable: bool,
}

/// A wire-format instruction descriptor: the target program, the ordered
/// account list, and the opaque payload bytes.
#[derive(Clone, Debug)]
pub struct InstructionDescriptor {
    pub program_id: [u8; 32],
    pub accounts: Vec<AccountRef>,
    pub data: Vec<u8>,
}

/// An amount as its 8 little-endian bytes.
pub open spec fn spec_amount_le_bytes(amount: u64) -> Seq<u8> {
    seq![
        (amount & 0xff) as u8,
        ((amount >> 8) & 0xff) as u8,
        ((amount >> 16) & 0xff) as u8,
        ((amount >> 24) & 0xff) as u8,
        ((amount >> 32) & 0xff) as u8,
        ((amount >> 40) & 0xff) as u8,
        ((amount >> 48) & 0xff) as u8,
        ((amount >> 56) & 0xff) as u8,
    ]
}

/// The payload of an optimize instruction: opcode byte 0, the encoded
/// strategy byte, then the amount as 8 little-endian bytes. No other opcode
/// is defined.
pub open spec fn spec_payload(strategy_byte: u8, amount: u64) -> Seq<u8> {
    seq![0u8, strategy_byte] + spec_amount_le_bytes(amount)
}

/// Serialize an amount as 8 little-endian bytes.
pub fn amount_le_bytes(amount: u64) -> (r: Vec<u8>)
    ensures
        r@ == spec_amount_le_bytes(amount),
{
    proof {
        assert(amount & 0xff < 256) by (bit_vector);
        assert((amount >> 8) & 0xff < 256) by (bit_vector);
        assert((amount >> 16) & 0xff < 256) by (bit_vector);
        assert((amount >> 24) & 0xff < 256) by (bit_vector);
        assert((amount >> 32) & 0xff < 256) by (bit_vector);
        assert((amount >> 40) & 0xff < 256) by (bit_vector);
        assert((amount >> 48) & 0xff < 256) by (bit_vector);
        assert((amount >> 56) & 0xff < 256) by (bit_vector);
    }
    let mut v: Vec<u8> = Vec::new();
    v.push((amount & 0xff) as u8);
    v.push(((amount >> 8) & 0xff) as u8);
    v.push(((amount >> 16) & 0xff) as u8);
    v.push(((amount >> 24) & 0xff) as u8);
    v.push(((amount >> 32) & 0xff) as u8);
    v.push(((amount >> 40) & 0xff) as u8);
    v.push(((amount >> 48) & 0xff) as u8);
    v.push(((amount >> 56) & 0xff) as u8);
    proof {
        assert(v@ =~= spec_amount_le_bytes(amount));
    }
    v
}

/// Build the optimize instruction for an already-derived position address:
/// the target program, the fixed account list [user (writable, signer);
/// position address (writable); system program (read-only)], and the
/// payload `[0, encoded strategy, amount in little-endian]`. Platform
/// accounts per strategy are a known gap and are not emitted.
pub fn build_instruction(
    amount: u64,
    strategy: &YieldStrategy,
    user: &[u8; 32],
    position_pda: &[u8; 32],
    program_id: &[u8; 32],
) -> (r: InstructionDescriptor)
    ensures
        r.program_id == *program_id,
        r.accounts@.len() == 3,
        r.accounts@[0].pubkey == *user,
        r.accounts@[0].is_signer,
        r.accounts@[0].is_writable,
        r.accounts@[1].pubkey == *position_pda,
        !r.accounts@[1].is_signer,
        r.accounts@[1].is_writable,
        r.accounts@[2].pubkey@ == Seq::new(32, |i: int| 0u8),
        !r.accounts@[2].is_signer,
        !r.accounts@[2].is_writable,
        r.data@ == spec_payload(spec_encode(*strategy), amount),
{
    let mut accounts: Vec<AccountRef> = Vec::new();
    accounts.push(AccountRef { pubkey: *user, is_signer: true, is_writable: true });
    accounts.push(AccountRef { pubkey: *position_pda, is_signer: false, is_writable: true });
    accounts.push(AccountRef { pubkey: system_program_id(), is_signer: false, is_writable: false });

    let mut data: Vec<u8> = Vec::new();
    data.push(0);
    data.push(encode(strategy));
    let mut amount_bytes = amount_le_bytes(amount);
    data.append(&mut amount_bytes);
    proof {
        assert(data@ =~= spec_payload(spec_encode(*strategy), amount));
    }

    InstructionDescriptor { program_id: *program_id, accounts, data }
}

} // verus!
