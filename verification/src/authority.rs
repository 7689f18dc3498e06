//! The program-derived signer: a keyless authority address derived
//! deterministically from a fixed domain-separation tag and the program's
//! own address. Only code that knows the tag and the program address can
//! re-derive it, so holding it is proof of authority over the vault.

use vstd::prelude::*;
use crate::address::Address;

verus! {

/// What `Pubkey::try_find_program_address` returns for one seed and a
/// program address: a function of its arguments alone (a deterministic,
/// hash-based search for an off-curve address and its bump seed), or `None`
/// in the statistically improbable event that no bump seed works.
pub uninterp spec fn pda_of(seed: Seq<u8>, program_id: Seq<u8>) -> Option<(Seq<u8>, u8)>;

/// The fixed domain-separation tag under which the vault derives its
/// signer: the bytes of `"my_stash"`.
pub open spec fn pda_seed_spec() -> Seq<u8> {
    seq![109u8, 121u8, 95u8, 115u8, 116u8, 97u8, 115u8, 104u8]
}

/// The vault's derived signer for a program: the address half of `pda_of`
/// under the fixed tag.
pub open spec fn derived_signer(program_id: Seq<u8>) -> Option<Seq<u8>> {
    match pda_of(pda_seed_spec(), program_id) {
        Some(p) => Some(p.0),
        None => None,
    }
}

/// The fixed tag as bytes.
pub fn pda_seed() -> (r: Vec<u8>)
    ensures
        r@ == pda_seed_spec(),
{
    let mut r: Vec<u8> = Vec::new();
    r.push(109);
    r.push(121);
    r.push(95);
    r.push(115);
    r.push(116);
    r.push(97);
    r.push(115);
    r.push(104);
    proof {
        assert(r@ =~= pda_seed_spec());
    }
    r
}

/// Relies on `Pubkey::try_find_program_address` (from `anchor_lang`'s
/// prelude): deterministically derives a program address and bump seed from
/// the seed list and the program's address, or returns `None` when no
/// off-curve address exists for them.
#[verifier::external_body]
fn find_derived_address(seed: &Vec<u8>, program_id: &Address) -> (r: Option<(Address, u8)>)
    ensures
        (match r {
            Some(p) => pda_of(seed@, program_id@) == Some((p.0@, p.1)),
            None => pda_of(seed@, program_id@) is None,
        }),
{
    let pk = anchor_lang::prelude::Pubkey::new_from_array(program_id.bytes);
    match anchor_lang::prelude::Pubkey::try_find_program_address(&[seed.as_slice()], &pk) {
        Some((addr, bump)) => Some((Address { bytes: addr.to_bytes() }, bump)),
        None => None,
    }
}

/// Derive the vault's signer address and bump seed for a program.
pub fn vault_authority(program_id: &Address) -> (r: Option<(Address, u8)>)
    ensures
        (match r {
            Some(p) => pda_of(pda_seed_spec(), program_id@) == Some((p.0@, p.1))
                && derived_signer(program_id@) == Some(p.0@),
            None => derived_signer(program_id@) is None,
        }),
{
    let seed = pda_seed();
    find_derived_address(&seed, program_id)
}

} // verus!
