//! Program-derived addresses. The derivation itself — repeatedly trying bump
//! seeds until the derived value is off the ed25519 curve — is the ledger
//! runtime's standard algorithm and is performed by the `solana_program`
//! crate; this module gives its result a name and states what the library
//! relies on.

use vstd::prelude::*;

verus! {

/// The address and bump seed that the standard program-derived-address
/// search yields for the seed list `[seed_tag, user]` under `program_id`,
/// or `None` in the statistically improbable case that no bump seed gives
/// an off-curve address. The result is a function of the three arguments
/// alone.
pub uninterp spec fn pda_lookup(seed_tag: Seq<u8>, user: Seq<u8>, program_id: Seq<u8>) -> Option<
    (Seq<u8>, u8),
>;

/// The seed tag that prefixes a user's yield-position address derivation:
/// the bytes of `"yield_position"`.
pub open spec fn spec_position_seed_tag() -> Seq<u8> {
    seq![
        121u8,
        105u8,
        101u8,
        108u8,
        100u8,
        95u8,
        112u8,
        111u8,
        115u8,
        105u8,
        116u8,
        105u8,
        111u8,
        110u8,
    ]
}

/// The bytes of `"yield_position"`, the seed tag of yield-position
/// addresses.
pub fn position_seed_tag() -> (r: Vec<u8>)
    ensures
        r@ == spec_position_seed_tag(),
{
    let mut v: Vec<u8> = Vec::new();
    v.push(121);
    v.push(105);
    v.push(101);
    v.push(108);
    v.push(100);
    v.push(95);
    v.push(112);
    v.push(111);
    v.push(115);
    v.push(105);
    v.push(116);
    v.push(105);
    v.push(111);
    v.push(110);
    proof {
        assert(v@ =~= spec_position_seed_tag());
    }
    v
}

/// Relies on `solana_program::pubkey::Pubkey::try_find_program_address`: the
/// derived address and bump seed are deterministic in the seeds and program
/// id, and `None` comes only when the bump-seed search fails (statistically
/// improbable) or a seed breaks the derivation's limits.
#[verifier::external_body]
pub(crate) fn try_find_pda(seed_tag: &Vec<u8>, user: &[u8; 32], program_id: &[u8; 32]) -> (r: Option<
    ([u8; 32], u8),
>)
    ensures
        match r {
            Some(p) => pda_lookup(seed_tag@, user@, program_id@) == Some((p.0@, p.1)),
            None => pda_lookup(seed_tag@, user@, program_id@) is None,
        },
{
    let program = solana_program::pubkey::Pubkey::new_from_array(*program_id);
    solana_program::pubkey::Pubkey::try_find_program_address(
        &[seed_tag.as_slice(), user.as_slice()],
        &program,
    ).map(|(address, bump)| (address.to_bytes(), bump))
}

/// Relies on `solana_program::system_program::ID`: the system program's
/// address, whose base58 form `"11111111111111111111111111111111"` is the
/// all-zero 32-byte identifier.
#[verifier::external_body]
pub(crate) fn system_program_id() -> (r: [u8; 32])
    ensures
        r@ == Seq::new(32, |i: int| 0u8),
{
    solana_program::system_program::ID.to_bytes()
}

} // verus!
