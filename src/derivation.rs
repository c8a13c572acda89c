use vstd::prelude::*;
use crate::address::Address;
use solana_program::pubkey::Pubkey;

verus! {

/// The address and bump seed that the runtime's program-address search yields
/// for `seeds` under `program_id`, or `None` where no bump gives an address off
/// the curve.
pub uninterp spec fn program_address(seeds: Seq<Seq<u8>>, program_id: Seq<u8>) -> Option<(Seq<u8>, u8)>;

/// Relies on solana_program's `Pubkey::try_find_program_address`: a pure
/// search over the bump seeds, which returns `None` (and never panics) where
/// no bump gives a valid address or a seed is too long.
#[verifier::external_body]
fn try_find_program_address(seeds: &Vec<Vec<u8>>, program_id: &Address) -> (r: Option<(Address, u8)>)
    ensures
        match r {
            Some((a, bump)) => program_address(seeds.deep_view(), program_id@) == Some((a@, bump)),
            None => program_address(seeds.deep_view(), program_id@) is None,
        },
{
    let slices: Vec<&[u8]> = seeds.iter().map(|s| s.as_slice()).collect();
    Pubkey::try_find_program_address(&slices, &Pubkey::new_from_array(program_id.bytes))
        .map(|(key, bump)| (Address { bytes: key.to_bytes() }, bump))
}

/// The bump seed under which `candidate` is the address derived from `seeds`,
/// if it is that address.
pub open spec fn derived_bump(candidate: Seq<u8>, seeds: Seq<Seq<u8>>, program_id: Seq<u8>) -> Option<u8> {
    match program_address(seeds, program_id) {
        Some((a, bump)) => if a == candidate { Some(bump) } else { None },
        None => None,
    }
}

/// Derives the program-owned address (and its bump seed) for `seeds`.
pub fn derive_address(seeds: &Vec<Vec<u8>>, program_id: &Address) -> (r: Option<(Address, u8)>)
    ensures
        match r {
            Some((a, bump)) => program_address(seeds.deep_view(), program_id@) == Some((a@, bump)),
            None => program_address(seeds.deep_view(), program_id@) is None,
        },
{
    try_find_program_address(seeds, program_id)
}

/// Re-derives the address for `seeds` and checks that `candidate` is it;
/// returns the bump seed where it is.
pub fn verify_derived_address(candidate: &Address, seeds: &Vec<Vec<u8>>, program_id: &Address) -> (r: Option<u8>)
    ensures
        r == derived_bump(candidate@, seeds.deep_view(), program_id@),
{
    match derive_address(seeds, program_id) {
        Some((a, bump)) => if a.same_as(candidate) {
            Some(bump)
        } else {
            None
        },
        None => None,
    }
}

/// Derivation is a function of its inputs, and the address it yields is
/// accepted by the check with the bump it came with.
pub proof fn derivation_is_deterministic(seeds: Seq<Seq<u8>>, program_id: Seq<u8>, other_seeds: Seq<Seq<u8>>, other_program_id: Seq<u8>)
    requires
        seeds == other_seeds,
        program_id == other_program_id,
    ensures
        program_address(seeds, program_id) == program_address(other_seeds, other_program_id),
        match program_address(seeds, program_id) {
            Some((a, bump)) => derived_bump(a, seeds, program_id) == Some(bump),
            None => forall|c: Seq<u8>| derived_bump(c, seeds, program_id) is None,
        },
{
}

/// The seed list made of a tag and, after it, the bytes of an identity.
pub open spec fn tagged_seeds(tag: Seq<u8>, key: Seq<u8>) -> Seq<Seq<u8>> {
    seq![tag, key]
}

/// Builds the seed list `[tag, key]`.
pub fn tagged(tag: &[u8], key: &Address) -> (r: Vec<Vec<u8>>)
    ensures
        r.deep_view() == tagged_seeds(tag@, key@),
{
    let mut r: Vec<Vec<u8>> = Vec::new();
    r.push(vstd::slice::slice_to_vec(tag));
    let mut k: Vec<u8> = Vec::new();
    key.write_to(&mut k);
    r.push(k);
    assert(r@[0].deep_view() =~= tag@);
    assert(r@[1].deep_view() =~= key@);
    assert(r.deep_view() =~= tagged_seeds(tag@, key@));
    r
}

/// Builds the seed list `[tag]`.
pub fn single(tag: &[u8]) -> (r: Vec<Vec<u8>>)
    ensures
        r.deep_view() == seq![tag@],
{
    let mut r: Vec<Vec<u8>> = Vec::new();
    r.push(vstd::slice::slice_to_vec(tag));
    assert(r@[0].deep_view() =~= tag@);
    assert(r.deep_view() =~= seq![tag@]);
    r
}

} // verus!
