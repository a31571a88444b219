use vstd::prelude::*;

use crate::record::BankError;
use anchor_lang::prelude::Pubkey;

verus! {

/// The address and bump seed that program-derived-address derivation yields
/// for a seed list of a domain tag and an owner identity, or `None` when the
/// bump-seed search is exhausted. The derivation is a pure function of the
/// seeds and the program identity, so it carries a name here rather than a
/// restatement of its hashing.
pub uninterp spec fn pda_of(tag: Seq<u8>, owner: Seq<u8>, program_id: Seq<u8>) -> Option<
    (Seq<u8>, u8),
>;

/// Relies on Pubkey::try_find_program_address: the returned address and bump
/// seed are computed from the seeds and the program id alone (a SHA-256
/// search over bump seeds), and `None` comes back exactly when that search
/// finds no off-curve address.
#[verifier::external_body]
fn find_pda(tag: &[u8; 11], owner: &[u8; 32], program_id: &[u8; 32]) -> (r: Option<([u8; 32], u8)>)
    ensures
        r matches Some(p) ==> pda_of(tag@, owner@, program_id@) == Some((p.0@, p.1)),
        r is None ==> pda_of(tag@, owner@, program_id@) is None,
{
    let pid = Pubkey::new_from_array(*program_id);
    Pubkey::try_find_program_address(&[tag.as_slice(), owner.as_slice()], &pid).map(
        |p: (Pubkey, u8)| (p.0.to_bytes(), p.1),
    )
}

/// The fixed domain separator under which every record address is derived.
pub open spec fn record_tag() -> Seq<u8> {
    seq![98u8, 97u8, 110u8, 107u8, 97u8, 99u8, 99u8, 111u8, 117u8, 110u8, 116u8]
}

/// What deriving a record address returns: the address and bump seed that
/// the derivation yields for the record tag, this owner and this program,
/// or `DerivationExhausted` in the (practically unreachable) case that no
/// derivation proof exists.
pub open spec fn derive_post(
    owner: Seq<u8>,
    program_id: Seq<u8>,
    r: Result<([u8; 32], u8), BankError>,
) -> bool {
    match pda_of(record_tag(), owner, program_id) {
        Some(p) => r matches Ok(a) && a.0@ == p.0 && a.1 == p.1,
        None => r == Err::<([u8; 32], u8), BankError>(BankError::DerivationExhausted),
    }
}

/// Derives the address of the one record an owner may hold under the given
/// program, together with its bump seed. The same owner always yields the
/// same address, and the derived address is not a valid signing key.
pub fn derive_record_address(owner: &[u8; 32], program_id: &[u8; 32]) -> (r: Result<
    ([u8; 32], u8),
    BankError,
>)
    ensures
        derive_post(owner@, program_id@, r),
{
    let tag: [u8; 11] = [98, 97, 110, 107, 97, 99, 99, 111, 117, 110, 116];
    proof {
        assert(tag@ =~= record_tag());
    }
    match find_pda(&tag, owner, program_id) {
        Some(p) => Ok(p),
        None => Err(BankError::DerivationExhausted),
    }
}

/// Law: derivation is deterministic. Two results of record-address
/// derivation for the same owner and program agree: both succeed with the
/// same address and bump seed, or both report exhaustion.
pub proof fn lemma_derivation_deterministic(
    owner: Seq<u8>,
    program_id: Seq<u8>,
    r1: Result<([u8; 32], u8), BankError>,
    r2: Result<([u8; 32], u8), BankError>,
)
    requires
        derive_post(owner, program_id, r1),
        derive_post(owner, program_id, r2),
    ensures
        r1 matches Ok(a1) ==> (r2 matches Ok(a2) && a1.0@ == a2.0@ && a1.1 == a2.1),
        r1 is Err ==> r2 == r1,
{
}

} // verus!
