use vstd::prelude::*;
use crate::address::Address;
use crate::error::TreasuryError;

verus! {

/// An account as the host hands it to an instruction: its address, the program
/// that owns it, whether it signed the transaction, and its stored bytes.
#[derive(Clone, Debug, PartialEq, Eq)]
pub struct AccountSnapshot {
    pub key: Address,
    pub owner: Address,
    pub is_signer: bool,
    pub data: Vec<u8>,
}

/// The mathematical content of an [`AccountSnapshot`].
pub struct AccountModel {
    pub key: Seq<u8>,
    pub owner: Seq<u8>,
    pub is_signer: bool,
    pub data: Seq<u8>,
}

impl View for AccountSnapshot {
    type V = AccountModel;

    open spec fn view(&self) -> AccountModel {
        AccountModel { key: self.key@, owner: self.owner@, is_signer: self.is_signer, data: self.data@ }
    }
}

/// An account the host is asked to create, owned by this program, sized and
/// filled with `data`, signed for by the derived-address seeds.
#[derive(Clone, Debug, PartialEq, Eq)]
pub struct CreateAccount {
    pub address: Address,
    pub space: u64,
    pub data: Vec<u8>,
    pub signer_seeds: Vec<Vec<u8>>,
}

pub struct CreationModel {
    pub address: Seq<u8>,
    pub space: u64,
    pub data: Seq<u8>,
    pub signer_seeds: Seq<Seq<u8>>,
}

impl View for CreateAccount {
    type V = CreationModel;

    open spec fn view(&self) -> CreationModel {
        CreationModel {
            address: self.address@,
            space: self.space,
            data: self.data@,
            signer_seeds: self.signer_seeds.deep_view(),
        }
    }
}

/// A token transfer the host is asked to make, signed for by the program
/// through the derived-address seeds of the source's authority.
#[derive(Clone, Debug, PartialEq, Eq)]
pub struct TokenTransfer {
    pub source: Address,
    pub destination: Address,
    pub authority: Address,
    pub amount: u64,
    pub signer_seeds: Vec<Vec<u8>>,
}

pub struct TransferModel {
    pub source: Seq<u8>,
    pub destination: Seq<u8>,
    pub authority: Seq<u8>,
    pub amount: u64,
    pub signer_seeds: Seq<Seq<u8>>,
}

impl View for TokenTransfer {
    type V = TransferModel;

    open spec fn view(&self) -> TransferModel {
        TransferModel {
            source: self.source@,
            destination: self.destination@,
            authority: self.authority@,
            amount: self.amount,
            signer_seeds: self.signer_seeds.deep_view(),
        }
    }
}

/// The account that results when the host performs `c` on `acct`.
pub open spec fn created_account(acct: AccountModel, c: CreationModel, program_id: Seq<u8>) -> AccountModel {
    AccountModel { key: acct.key, owner: program_id, is_signer: acct.is_signer, data: c.data }
}

/// The seed list `seeds` followed by the one-byte bump seed.
pub open spec fn with_bump(seeds: Seq<Seq<u8>>, bump: u8) -> Seq<Seq<u8>> {
    seeds.push(seq![bump])
}

/// Appends the one-byte bump seed to a seed list.
pub fn push_bump(seeds: &mut Vec<Vec<u8>>, bump: u8)
    ensures
        final(seeds).deep_view() == with_bump(old(seeds).deep_view(), bump),
{
    let mut b: Vec<u8> = Vec::new();
    b.push(bump);
    seeds.push(b);
    assert(seeds@[seeds@.len() - 1].deep_view() =~= seq![bump]);
    assert(seeds.deep_view() =~= with_bump(old(seeds).deep_view(), bump));
}

} // verus!

verus! {

/// What a vested withdrawal changes: the treasury record's new bytes, and the
/// transfer that pays out.
#[derive(Clone, Debug, PartialEq, Eq)]
pub struct VestedWithdrawal {
    pub treasury_data: Vec<u8>,
    pub transfer: TokenTransfer,
}

pub struct WithdrawalModel {
    pub treasury_data: Seq<u8>,
    pub transfer: TransferModel,
}

impl View for VestedWithdrawal {
    type V = WithdrawalModel;

    open spec fn view(&self) -> WithdrawalModel {
        WithdrawalModel { treasury_data: self.treasury_data@, transfer: self.transfer@ }
    }
}

/// The mathematical content of a result whose success value has a view.
pub open spec fn outcome_of<T: View>(r: Result<T, TreasuryError>) -> Result<T::V, TreasuryError> {
    match r {
        Ok(t) => Ok(t@),
        Err(e) => Err(e),
    }
}

} // verus!
