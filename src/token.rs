use vstd::prelude::*;
use vstd::bytes::spec_u64_from_le_bytes;
use crate::address::Address;
use crate::derivation::{derive_address, program_address};
use crate::error::TreasuryError;
use crate::snapshot::AccountSnapshot;
use solana_program::program_pack::Pack;

verus! {

/// The token program's identity (`TokenkegQfeZyiNwAJbNbGKPFXCWuBvf9Ss623VQ5DA`).
pub open spec fn token_program_key() -> Seq<u8> {
    seq![
        6, 221, 246, 225, 215, 101, 161, 147,
        217, 203, 225, 70, 206, 235, 121, 172,
        28, 180, 133, 237, 95, 91, 55, 145,
        58, 140, 245, 133, 126, 255, 0, 169,
    ]
}

/// The associated-token-account program's identity
/// (`ATokenGPvbdGVxr1b2hvZbsiqW5xWH25efTNsLJA8knL`).
pub open spec fn associated_token_program_key() -> Seq<u8> {
    seq![
        140, 151, 37, 143, 78, 36, 137, 241,
        187, 61, 16, 41, 20, 142, 13, 131,
        11, 90, 19, 153, 218, 255, 16, 132,
        4, 142, 123, 216, 219, 233, 248, 89,
    ]
}

pub fn token_program_id() -> (r: Address)
    ensures
        r@ == token_program_key(),
{
    let r = Address { bytes: [
        6, 221, 246, 225, 215, 101, 161, 147,
        217, 203, 225, 70, 206, 235, 121, 172,
        28, 180, 133, 237, 95, 91, 55, 145,
        58, 140, 245, 133, 126, 255, 0, 169,
    ] };
    assert(r@ =~= token_program_key());
    r
}

pub fn associated_token_program_id() -> (r: Address)
    ensures
        r@ == associated_token_program_key(),
{
    let r = Address { bytes: [
        140, 151, 37, 143, 78, 36, 137, 241,
        187, 61, 16, 41, 20, 142, 13, 131,
        11, 90, 19, 153, 218, 255, 16, 132,
        4, 142, 123, 216, 219, 233, 248, 89,
    ] };
    assert(r@ =~= associated_token_program_key());
    r
}

/// Whether the four bytes at `pos` are an option tag: `[0,0,0,0]` or `[1,0,0,0]`.
pub open spec fn option_tag_valid(s: Seq<u8>, pos: int) -> bool {
    &&& (s[pos] == 0 || s[pos] == 1)
    &&& s[pos + 1] == 0
    &&& s[pos + 2] == 0
    &&& s[pos + 3] == 0
}

/// Whether `data` is an initialized token mint: 82 bytes, with a valid mint
/// authority option, an initialized flag of 1, and a valid freeze authority
/// option.
pub open spec fn is_mint(data: Seq<u8>) -> bool {
    &&& data.len() == 82
    &&& option_tag_valid(data, 0)
    &&& data[45] == 1
    &&& option_tag_valid(data, 46)
}

/// Whether `data` is an initialized token account: 165 bytes, with valid
/// delegate, native-amount and close-authority options, and a state byte of
/// 1 (initialized) or 2 (frozen).
pub open spec fn is_token_account(data: Seq<u8>) -> bool {
    &&& data.len() == 165
    &&& option_tag_valid(data, 72)
    &&& (data[108] == 1 || data[108] == 2)
    &&& option_tag_valid(data, 109)
    &&& option_tag_valid(data, 129)
}

/// Relies on spl_token's `Mint::unpack`: it accepts exactly the 82-byte
/// layouts with valid option tags and an initialized flag of 1.
#[verifier::external_body]
fn unpack_mint(data: &[u8]) -> (r: bool)
    ensures
        r == is_mint(data@),
{
    spl_token::state::Mint::unpack(data).is_ok()
}

/// The fields of a token account that the treasury reads.
#[derive(Clone, Copy, Debug, PartialEq, Eq)]
pub struct TokenAccount {
    pub mint: Address,
    pub owner: Address,
    pub amount: u64,
}

/// Relies on spl_token's `Account::unpack`: it accepts exactly the 165-byte
/// layouts with valid option tags and an initialized or frozen state, and
/// reads the mint, the owner and the little-endian amount from the first 72
/// bytes.
#[verifier::external_body]
fn unpack_token_account(data: &[u8]) -> (r: Option<TokenAccount>)
    ensures
        r is Some <==> is_token_account(data@),
        r matches Some(a) ==> {
            &&& a.mint@ == data@.subrange(0, 32)
            &&& a.owner@ == data@.subrange(32, 64)
            &&& a.amount == spec_u64_from_le_bytes(data@.subrange(64, 72))
        },
{
    spl_token::state::Account::unpack(data).ok().map(|a| TokenAccount {
        mint: Address { bytes: a.mint.to_bytes() },
        owner: Address { bytes: a.owner.to_bytes() },
        amount: a.amount,
    })
}

/// Whether `data` holds an initialized token mint.
pub fn is_valid_mint(data: &[u8]) -> (r: bool)
    ensures
        r == is_mint(data@),
{
    unpack_mint(data)
}

/// The seeds of the associated token account of `wallet` for `mint`.
pub open spec fn associated_seeds(wallet: Seq<u8>, mint: Seq<u8>) -> Seq<Seq<u8>> {
    seq![wallet, token_program_key(), mint]
}

/// The associated token account address of `wallet` for `mint`, where the
/// derivation yields one.
pub open spec fn associated_address(wallet: Seq<u8>, mint: Seq<u8>) -> Option<Seq<u8>> {
    match program_address(associated_seeds(wallet, mint), associated_token_program_key()) {
        Some((a, _)) => Some(a),
        None => None,
    }
}

/// Derives the associated token account address of `wallet` for `mint`: the
/// program address of `[wallet, token program, mint]` under the
/// associated-token-account program.
pub fn get_associated_token_address(wallet: &Address, mint: &Address) -> (r: Option<Address>)
    ensures
        match r {
            Some(a) => associated_address(wallet@, mint@) == Some(a@),
            None => associated_address(wallet@, mint@) is None,
        },
{
    let mut seeds: Vec<Vec<u8>> = Vec::new();
    let mut w: Vec<u8> = Vec::new();
    wallet.write_to(&mut w);
    let mut t: Vec<u8> = Vec::new();
    token_program_id().write_to(&mut t);
    let mut m: Vec<u8> = Vec::new();
    mint.write_to(&mut m);
    seeds.push(w);
    seeds.push(t);
    seeds.push(m);
    assert(seeds@[0].deep_view() =~= wallet@);
    assert(seeds@[1].deep_view() =~= token_program_key());
    assert(seeds@[2].deep_view() =~= mint@);
    assert(seeds.deep_view() =~= associated_seeds(wallet@, mint@));
    match derive_address(&seeds, &associated_token_program_id()) {
        Some((a, _)) => Some(a),
        None => None,
    }
}

/// The outcome of checking that `acct` is a token account of `mint` held by
/// `owner`.
pub open spec fn associated_check(acct: Seq<u8>, owner: Seq<u8>, mint: Seq<u8>) -> Result<u64, TreasuryError> {
    if !is_token_account(acct) {
        Err(TreasuryError::InvalidAssociatedAccount)
    } else if acct.subrange(0, 32) != mint {
        Err(TreasuryError::MintWrongToken)
    } else if acct.subrange(32, 64) != owner {
        Err(TreasuryError::InvalidAssociatedAccount)
    } else {
        Ok(spec_u64_from_le_bytes(acct.subrange(64, 72)))
    }
}

/// Checks that `acct` holds a token account of `mint` whose owner is `owner`,
/// and returns its balance.
pub fn verify_associated(acct: &AccountSnapshot, owner: &Address, mint: &Address) -> (r: Result<u64, TreasuryError>)
    ensures
        r == associated_check(acct.data@, owner@, mint@),
{
    match unpack_token_account(acct.data.as_slice()) {
        None => Err(TreasuryError::InvalidAssociatedAccount),
        Some(a) => if !a.mint.same_as(mint) {
            Err(TreasuryError::MintWrongToken)
        } else if !a.owner.same_as(owner) {
            Err(TreasuryError::InvalidAssociatedAccount)
        } else {
            Ok(a.amount)
        },
    }
}

} // verus!
