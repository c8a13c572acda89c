use vstd::prelude::*;
use vstd::string::StringSliceAdditionalSpecFns;
use vstd::bytes::{lemma_auto_spec_u64_to_from_le_bytes, spec_u64_to_le_bytes};
use crate::account::{
    simple_decode, simple_round_trip, unlocked_is_monotonic, vested_decode, vested_round_trip, vested_well_formed,
    settings_bytes, simple_authority_tag, simple_bytes, simple_from_account, simple_tag, unlocked_at, vested_authority_tag,
    vested_bytes, vested_from_account, vested_tag, Settings, SettingsModel, SimpleTreasury, SimpleTreasuryMode,
    SimpleTreasuryModel, VestedTreasury, VestedTreasuryModel, MAX_PERCENTAGE, MIN_PERCENTAGE, SETTINGS_LEN,
    SIMPLE_TREASURY_LEN, VESTED_TREASURY_LEN,
};
use crate::address::Address;
use crate::derivation::{derived_bump, single, tagged, tagged_seeds, verify_derived_address};
use crate::error::TreasuryError;
use crate::instruction::{instruction_decode, TreasuryInstruction};
use crate::snapshot::{
    created_account, outcome_of, push_bump, with_bump, AccountModel, AccountSnapshot, CreateAccount, CreationModel, TokenTransfer,
    TransferModel, VestedWithdrawal, WithdrawalModel,
};
use crate::token::{associated_address, associated_check, get_associated_token_address, is_mint, is_valid_mint, verify_associated};

verus! {

/// The tag of the seed of the settings record's address.
pub open spec fn settings_tag() -> Seq<u8> {
    "settings".spec_bytes()
}

/// The outcome of Initialize: create the settings record at its derived
/// address, once, for a valid token mint.
pub open spec fn initialize_outcome(program_id: Seq<u8>, settings: AccountModel, mint: AccountModel) -> Result<CreationModel, TreasuryError> {
    match derived_bump(settings.key, seq![settings_tag()], program_id) {
        None => Err(TreasuryError::InvalidSettingsKey),
        Some(bump) => if settings.data.len() != 0 {
            Err(TreasuryError::AlreadyInitialized)
        } else if !is_mint(mint.data) {
            Err(TreasuryError::TokenNotSPLToken)
        } else {
            Ok(CreationModel {
                address: settings.key,
                space: SETTINGS_LEN as u64,
                data: settings_bytes(SettingsModel { token: mint.key }),
                signer_seeds: with_bump(seq![settings_tag()], bump),
            })
        },
    }
}

/// The outcome of CreateSimpleTreasury: create the authority's simple
/// treasury at its derived address, once, for a valid token mint.
pub open spec fn create_simple_outcome(
    program_id: Seq<u8>,
    authority: AccountModel,
    treasury: AccountModel,
    mint: AccountModel,
    mode: SimpleTreasuryMode,
) -> Result<CreationModel, TreasuryError> {
    match derived_bump(treasury.key, tagged_seeds(simple_tag(), authority.key), program_id) {
        None => Err(TreasuryError::InvalidTreasuryAddress),
        Some(bump) => if treasury.data.len() != 0 {
            Err(TreasuryError::TreasuryAlreadyExists)
        } else if !authority.is_signer {
            Err(TreasuryError::MissingAuthoritySignature)
        } else if !is_mint(mint.data) {
            Err(TreasuryError::TokenNotSPLToken)
        } else {
            Ok(CreationModel {
                address: treasury.key,
                space: SIMPLE_TREASURY_LEN as u64,
                data: simple_bytes(SimpleTreasuryModel { mint: mint.key, mode, authority: authority.key }),
                signer_seeds: with_bump(tagged_seeds(simple_tag(), authority.key), bump),
            })
        },
    }
}

/// The outcome of WithdrawSimple: move `amount` from the treasury's fund to
/// the authority's token account, for an unlocked treasury only.
pub open spec fn withdraw_simple_outcome(
    program_id: Seq<u8>,
    authority: AccountModel,
    recipient: AccountModel,
    treasury: AccountModel,
    fund_authority: AccountModel,
    fund: AccountModel,
    amount: u64,
) -> Result<TransferModel, TreasuryError> {
    match simple_from_account(treasury, authority, program_id) {
        Err(e) => Err(e),
        Ok(t) => if t.mode == SimpleTreasuryMode::Locked {
            Err(TreasuryError::TreasuryIsLocked)
        } else {
            let seeds = tagged_seeds(simple_authority_tag(), treasury.key);
            match derived_bump(fund_authority.key, seeds, program_id) {
                None => Err(TreasuryError::InvalidTreasuryFundAuthorityAddress),
                Some(bump) => if associated_address(fund_authority.key, t.mint) != Some(fund.key) {
                    Err(TreasuryError::InvalidTreasuryFundAddress)
                } else {
                    match associated_check(fund.data, fund_authority.key, t.mint) {
                        Err(e) => Err(e),
                        Ok(_) => match associated_check(recipient.data, t.authority, t.mint) {
                            Err(e) => Err(e),
                            Ok(_) => Ok(TransferModel {
                                source: fund.key,
                                destination: recipient.key,
                                authority: fund_authority.key,
                                amount,
                                signer_seeds: with_bump(seeds, bump),
                            }),
                        },
                    }
                },
            }
        },
    }
}

/// The vested treasury record that CreatedVestedTreasury writes.
pub open spec fn new_vested(authority: Seq<u8>, mint: Seq<u8>, now: i64, amount: u64, period: u64, percentage: u16) -> VestedTreasuryModel {
    VestedTreasuryModel {
        mint,
        authority,
        initial_amount: amount,
        start: now,
        vestment_period: period,
        vestment_percentage: percentage,
        withdrawn: 0,
    }
}

/// The outcome of CreatedVestedTreasury: create the authority's vested
/// treasury at its derived address, once, starting at `now`, for a valid
/// mint, a positive amount and period, and a share within bounds.
pub open spec fn create_vested_outcome(
    program_id: Seq<u8>,
    authority: AccountModel,
    treasury: AccountModel,
    mint: AccountModel,
    now: i64,
    amount: u64,
    period: u64,
    percentage: u16,
) -> Result<CreationModel, TreasuryError> {
    match derived_bump(treasury.key, tagged_seeds(vested_tag(), authority.key), program_id) {
        None => Err(TreasuryError::InvalidTreasuryAddress),
        Some(bump) => if treasury.data.len() != 0 {
            Err(TreasuryError::TreasuryAlreadyExists)
        } else if !is_mint(mint.data) {
            Err(TreasuryError::TokenNotSPLToken)
        } else if amount == 0 {
            Err(TreasuryError::InvalidVestmentAmount)
        } else if period == 0 {
            Err(TreasuryError::InvalidVestmentPeriod)
        } else if percentage < MIN_PERCENTAGE || percentage > MAX_PERCENTAGE {
            Err(TreasuryError::InvalidVestmentPercentage)
        } else {
            Ok(CreationModel {
                address: treasury.key,
                space: VESTED_TREASURY_LEN as u64,
                data: vested_bytes(new_vested(authority.key, mint.key, now, amount, period, percentage)),
                signer_seeds: with_bump(tagged_seeds(vested_tag(), authority.key), bump),
            })
        },
    }
}

/// What a withdrawal at `now` pays from a fund holding `balance`: what has
/// unlocked and not yet been withdrawn, capped by the balance.
pub open spec fn payable_amount(t: VestedTreasuryModel, now: i64, balance: u64) -> int {
    let available = unlocked_at(t, now) - t.withdrawn;
    if available <= 0 {
        0
    } else if available > balance {
        balance as int
    } else {
        available
    }
}

/// The vested treasury record after a withdrawal at `now` from a fund holding
/// `balance`: what was paid is added to what was withdrawn.
pub open spec fn after_withdrawal(t: VestedTreasuryModel, now: i64, balance: u64) -> VestedTreasuryModel {
    VestedTreasuryModel { withdrawn: (t.withdrawn + payable_amount(t, now, balance)) as u64, ..t }
}

/// The outcome of WithdrawVested: pay the authority what has unlocked and
/// not been withdrawn (as far as the fund holds it), recording it as
/// withdrawn; nothing to do where that is zero.
pub open spec fn withdraw_vested_outcome(
    program_id: Seq<u8>,
    authority: AccountModel,
    recipient: AccountModel,
    treasury: AccountModel,
    fund_authority: AccountModel,
    fund: AccountModel,
    now: i64,
) -> Result<Option<WithdrawalModel>, TreasuryError> {
    match vested_from_account(treasury, authority, program_id) {
        Err(e) => Err(e),
        Ok(t) => {
            let seeds = tagged_seeds(vested_authority_tag(), treasury.key);
            match derived_bump(fund_authority.key, seeds, program_id) {
                None => Err(TreasuryError::InvalidTreasuryFundAuthorityAddress),
                Some(bump) => if associated_address(fund_authority.key, t.mint) != Some(fund.key) {
                    Err(TreasuryError::InvalidTreasuryFundAddress)
                } else {
                    match associated_check(fund.data, fund_authority.key, t.mint) {
                        Err(e) => Err(e),
                        Ok(balance) => match associated_check(recipient.data, t.authority, t.mint) {
                            Err(e) => Err(e),
                            Ok(_) => if payable_amount(t, now, balance) == 0 {
                                Ok(None)
                            } else {
                                Ok(Some(WithdrawalModel {
                                    treasury_data: vested_bytes(after_withdrawal(t, now, balance)),
                                    transfer: TransferModel {
                                        source: fund.key,
                                        destination: recipient.key,
                                        authority: fund_authority.key,
                                        amount: payable_amount(t, now, balance) as u64,
                                        signer_seeds: with_bump(seeds, bump),
                                    },
                                }))
                            },
                        },
                    }
                },
            }
        },
    }
}

/// The treasury program's instruction handlers: each checks the accounts it
/// is handed and says what the host is to change.
pub struct Processor {}

impl Processor {
    /// Reads the instruction that `input` encodes; the host then hands the
    /// instruction's accounts to the matching handler below.
    pub fn process(input: &[u8]) -> (r: Result<TreasuryInstruction, TreasuryError>)
        ensures
            match instruction_decode(input@) {
                Some(i) => r == Ok::<TreasuryInstruction, TreasuryError>(i),
                None => r == Err::<TreasuryInstruction, TreasuryError>(TreasuryError::InvalidInstruction),
            },
    {
        match TreasuryInstruction::from_bytes(input) {
            Some(i) => Ok(i),
            None => Err(TreasuryError::InvalidInstruction),
        }
    }

    /// Creates the settings record.
    pub fn process_initialize(program_id: &Address, settings_info: &AccountSnapshot, mint_info: &AccountSnapshot) -> (r: Result<CreateAccount, TreasuryError>)
        ensures
            outcome_of(r) == initialize_outcome(program_id@, settings_info@, mint_info@),
    {
        let mut seeds = single("settings".as_bytes());
        let bump = match verify_derived_address(&settings_info.key, &seeds, program_id) {
            Some(b) => b,
            None => return Err(TreasuryError::InvalidSettingsKey),
        };
        if settings_info.data.len() != 0 {
            return Err(TreasuryError::AlreadyInitialized);
        }
        if !is_valid_mint(mint_info.data.as_slice()) {
            return Err(TreasuryError::TokenNotSPLToken);
        }
        let settings = Settings { token: mint_info.key };
        push_bump(&mut seeds, bump);
        Ok(CreateAccount { address: settings_info.key, space: SETTINGS_LEN as u64, data: settings.to_bytes(), signer_seeds: seeds })
    }

    /// Creates a simple treasury for the authority.
    pub fn process_create_simple_treasury(
        program_id: &Address,
        authority_info: &AccountSnapshot,
        treasury_info: &AccountSnapshot,
        mint_info: &AccountSnapshot,
        mode: SimpleTreasuryMode,
    ) -> (r: Result<CreateAccount, TreasuryError>)
        ensures
            outcome_of(r) == create_simple_outcome(program_id@, authority_info@, treasury_info@, mint_info@, mode),
    {
        let mut seeds = tagged("simple".as_bytes(), &authority_info.key);
        let bump = match verify_derived_address(&treasury_info.key, &seeds, program_id) {
            Some(b) => b,
            None => return Err(TreasuryError::InvalidTreasuryAddress),
        };
        if treasury_info.data.len() != 0 {
            return Err(TreasuryError::TreasuryAlreadyExists);
        }
        if !authority_info.is_signer {
            return Err(TreasuryError::MissingAuthoritySignature);
        }
        if !is_valid_mint(mint_info.data.as_slice()) {
            return Err(TreasuryError::TokenNotSPLToken);
        }
        let treasury = SimpleTreasury { mint: mint_info.key, mode, authority: authority_info.key };
        push_bump(&mut seeds, bump);
        Ok(CreateAccount { address: treasury_info.key, space: SIMPLE_TREASURY_LEN as u64, data: treasury.to_bytes(), signer_seeds: seeds })
    }

    /// Withdraws `amount` from an unlocked simple treasury to its authority.
    pub fn process_withdraw_simple(
        program_id: &Address,
        authority_info: &AccountSnapshot,
        recipient_info: &AccountSnapshot,
        treasury_info: &AccountSnapshot,
        fund_authority_info: &AccountSnapshot,
        fund_info: &AccountSnapshot,
        amount: u64,
    ) -> (r: Result<TokenTransfer, TreasuryError>)
        ensures
            outcome_of(r) == withdraw_simple_outcome(
                program_id@,
                authority_info@,
                recipient_info@,
                treasury_info@,
                fund_authority_info@,
                fund_info@,
                amount,
            ),
    {
        let treasury = SimpleTreasury::from_account_info(treasury_info, authority_info, program_id)?;
        if treasury.mode == SimpleTreasuryMode::Locked {
            return Err(TreasuryError::TreasuryIsLocked);
        }
        let bump = SimpleTreasury::verify_fund_authority_address(&fund_authority_info.key, &treasury_info.key, program_id)?;
        match get_associated_token_address(&fund_authority_info.key, &treasury.mint) {
            Some(a) => if !a.same_as(&fund_info.key) {
                return Err(TreasuryError::InvalidTreasuryFundAddress);
            },
            None => return Err(TreasuryError::InvalidTreasuryFundAddress),
        }
        verify_associated(fund_info, &fund_authority_info.key, &treasury.mint)?;
        verify_associated(recipient_info, &treasury.authority, &treasury.mint)?;
        let mut seeds = tagged("simple authority".as_bytes(), &treasury_info.key);
        push_bump(&mut seeds, bump);
        Ok(TokenTransfer {
            source: fund_info.key,
            destination: recipient_info.key,
            authority: fund_authority_info.key,
            amount,
            signer_seeds: seeds,
        })
    }

    /// Creates a vested treasury for the authority, starting at `now`.
    pub fn process_create_vested_treasury(
        program_id: &Address,
        authority_info: &AccountSnapshot,
        treasury_info: &AccountSnapshot,
        mint_info: &AccountSnapshot,
        now: i64,
        amount: u64,
        period: u64,
        percentage: u16,
    ) -> (r: Result<CreateAccount, TreasuryError>)
        ensures
            outcome_of(r) == create_vested_outcome(
                program_id@,
                authority_info@,
                treasury_info@,
                mint_info@,
                now,
                amount,
                period,
                percentage,
            ),
    {
        let mut seeds = tagged("vested".as_bytes(), &authority_info.key);
        let bump = match verify_derived_address(&treasury_info.key, &seeds, program_id) {
            Some(b) => b,
            None => return Err(TreasuryError::InvalidTreasuryAddress),
        };
        if treasury_info.data.len() != 0 {
            return Err(TreasuryError::TreasuryAlreadyExists);
        }
        if !is_valid_mint(mint_info.data.as_slice()) {
            return Err(TreasuryError::TokenNotSPLToken);
        }
        if amount == 0 {
            return Err(TreasuryError::InvalidVestmentAmount);
        }
        if period == 0 {
            return Err(TreasuryError::InvalidVestmentPeriod);
        }
        if percentage < MIN_PERCENTAGE || percentage > MAX_PERCENTAGE {
            return Err(TreasuryError::InvalidVestmentPercentage);
        }
        let treasury = VestedTreasury {
            mint: mint_info.key,
            authority: authority_info.key,
            initial_amount: amount,
            start: now,
            vestment_period: period,
            vestment_percentage: percentage,
            withdrawn: 0,
        };
        push_bump(&mut seeds, bump);
        Ok(CreateAccount { address: treasury_info.key, space: VESTED_TREASURY_LEN as u64, data: treasury.to_bytes(), signer_seeds: seeds })
    }

    /// Withdraws from a vested treasury what has unlocked by `now` and has
    /// not been withdrawn, as far as the fund holds it.
    pub fn process_withdraw_vested(
        program_id: &Address,
        authority_info: &AccountSnapshot,
        recipient_info: &AccountSnapshot,
        treasury_info: &AccountSnapshot,
        fund_authority_info: &AccountSnapshot,
        fund_info: &AccountSnapshot,
        now: i64,
    ) -> (r: Result<Option<VestedWithdrawal>, TreasuryError>)
        ensures
            match r {
                Ok(Some(w)) => withdraw_vested_outcome(
                    program_id@,
                    authority_info@,
                    recipient_info@,
                    treasury_info@,
                    fund_authority_info@,
                    fund_info@,
                    now,
                ) == Ok::<Option<WithdrawalModel>, TreasuryError>(Some(w@)),
                Ok(None) => withdraw_vested_outcome(
                    program_id@,
                    authority_info@,
                    recipient_info@,
                    treasury_info@,
                    fund_authority_info@,
                    fund_info@,
                    now,
                ) == Ok::<Option<WithdrawalModel>, TreasuryError>(None),
                Err(e) => withdraw_vested_outcome(
                    program_id@,
                    authority_info@,
                    recipient_info@,
                    treasury_info@,
                    fund_authority_info@,
                    fund_info@,
                    now,
                ) == Err::<Option<WithdrawalModel>, TreasuryError>(e),
            },
    {
        let treasury = VestedTreasury::from_account_info(treasury_info, authority_info, program_id)?;
        let bump = VestedTreasury::verify_fund_authority_address(&fund_authority_info.key, &treasury_info.key, program_id)?;
        match get_associated_token_address(&fund_authority_info.key, &treasury.mint) {
            Some(a) => if !a.same_as(&fund_info.key) {
                return Err(TreasuryError::InvalidTreasuryFundAddress);
            },
            None => return Err(TreasuryError::InvalidTreasuryFundAddress),
        }
        let balance = verify_associated(fund_info, &fund_authority_info.key, &treasury.mint)?;
        verify_associated(recipient_info, &treasury.authority, &treasury.mint)?;

        let unlocked = treasury.maximum_available(now);
        let payable: u64 = if unlocked <= treasury.withdrawn {
            0
        } else if unlocked - treasury.withdrawn > balance {
            balance
        } else {
            unlocked - treasury.withdrawn
        };
        if payable == 0 {
            return Ok(None);
        }
        let updated = VestedTreasury {
            mint: treasury.mint,
            authority: treasury.authority,
            initial_amount: treasury.initial_amount,
            start: treasury.start,
            vestment_period: treasury.vestment_period,
            vestment_percentage: treasury.vestment_percentage,
            withdrawn: treasury.withdrawn + payable,
        };
        assert(updated@ == after_withdrawal(treasury@, now, balance));
        let mut seeds = tagged("vested authority".as_bytes(), &treasury_info.key);
        push_bump(&mut seeds, bump);
        Ok(Some(VestedWithdrawal {
            treasury_data: updated.to_bytes(),
            transfer: TokenTransfer {
                source: fund_info.key,
                destination: recipient_info.key,
                authority: fund_authority_info.key,
                amount: payable,
                signer_seeds: seeds,
            },
        }))
    }
}

/// Over a run of withdrawals at non-decreasing times, what has been withdrawn
/// never decreases, never passes what has unlocked by then, which never passes
/// the principal; what is added is exactly what is paid.
pub proof fn withdrawal_stays_within_unlocked(t: VestedTreasuryModel, earlier: i64, now: i64, balance: u64)
    requires
        vested_well_formed(t),
        t.withdrawn <= unlocked_at(t, earlier),
        earlier <= now,
    ensures
        t.withdrawn <= after_withdrawal(t, now, balance).withdrawn,
        after_withdrawal(t, now, balance).withdrawn <= unlocked_at(after_withdrawal(t, now, balance), now),
        unlocked_at(after_withdrawal(t, now, balance), now) <= after_withdrawal(t, now, balance).initial_amount,
        after_withdrawal(t, now, balance).withdrawn == t.withdrawn + payable_amount(t, now, balance),
        payable_amount(t, now, balance) <= balance,
        vested_well_formed(after_withdrawal(t, now, balance)),
{
    unlocked_is_monotonic(t, earlier, now);
    let u = after_withdrawal(t, now, balance);
    assert(unlocked_at(u, now) == unlocked_at(t, now));
}

/// A WithdrawVested that changes anything writes back a well-formed record in
/// which what has been withdrawn grew by the amount transferred and stays
/// within what has unlocked, provided the stored record was within what had
/// unlocked at an earlier time.
pub proof fn withdraw_vested_keeps_record_within_unlocked(
    program_id: Seq<u8>,
    authority: AccountModel,
    recipient: AccountModel,
    treasury: AccountModel,
    fund_authority: AccountModel,
    fund: AccountModel,
    earlier: i64,
    now: i64,
)
    requires
        vested_decode(treasury.data) is Some,
        vested_decode(treasury.data)->Some_0.withdrawn <= unlocked_at(vested_decode(treasury.data)->Some_0, earlier),
        earlier <= now,
    ensures
        withdraw_vested_outcome(program_id, authority, recipient, treasury, fund_authority, fund, now) matches Ok(Some(w)) ==> {
            let t = vested_decode(treasury.data)->Some_0;
            &&& vested_decode(w.treasury_data) is Some
            &&& vested_well_formed(vested_decode(w.treasury_data)->Some_0)
            &&& vested_decode(w.treasury_data)->Some_0.withdrawn == t.withdrawn + w.transfer.amount
            &&& t.withdrawn <= vested_decode(w.treasury_data)->Some_0.withdrawn
            &&& vested_decode(w.treasury_data)->Some_0.withdrawn <= unlocked_at(vested_decode(w.treasury_data)->Some_0, now)
            &&& unlocked_at(vested_decode(w.treasury_data)->Some_0, now) <= t.initial_amount
        },
{
    let r = withdraw_vested_outcome(program_id, authority, recipient, treasury, fund_authority, fund, now);
    if let Ok(Some(w)) = r {
        let t = vested_decode(treasury.data)->Some_0;
        let balance = associated_check(fund.data, fund_authority.key, t.mint)->Ok_0;
        withdrawal_stays_within_unlocked(t, earlier, now, balance);
        vested_round_trip(after_withdrawal(t, now, balance));
    }
}

/// Initialize succeeds at most once: on the settings account it created, a
/// second Initialize is refused as already initialized, and so changes nothing.
pub proof fn initialize_only_once(program_id: Seq<u8>, settings: AccountModel, mint: AccountModel, mint_again: AccountModel)
    requires
        mint.key.len() == 32,
        initialize_outcome(program_id, settings, mint) is Ok,
    ensures
        initialize_outcome(
            program_id,
            created_account(settings, initialize_outcome(program_id, settings, mint)->Ok_0, program_id),
            mint_again,
        ) == Err::<CreationModel, TreasuryError>(TreasuryError::AlreadyInitialized),
{
}

/// A simple treasury is created at most once per authority: on the account
/// it created, a second creation is refused as existing, and so changes
/// nothing.
pub proof fn create_simple_only_once(
    program_id: Seq<u8>,
    authority: AccountModel,
    treasury: AccountModel,
    mint: AccountModel,
    mode: SimpleTreasuryMode,
    mint_again: AccountModel,
    mode_again: SimpleTreasuryMode,
)
    requires
        create_simple_outcome(program_id, authority, treasury, mint, mode) is Ok,
    ensures
        create_simple_outcome(
            program_id,
            authority,
            created_account(treasury, create_simple_outcome(program_id, authority, treasury, mint, mode)->Ok_0, program_id),
            mint_again,
            mode_again,
        ) == Err::<CreationModel, TreasuryError>(TreasuryError::TreasuryAlreadyExists),
{
}

/// A vested treasury is created at most once per authority: on the account
/// it created, a second creation is refused as existing, and so changes
/// nothing.
pub proof fn create_vested_only_once(
    program_id: Seq<u8>,
    authority: AccountModel,
    treasury: AccountModel,
    mint: AccountModel,
    now: i64,
    amount: u64,
    period: u64,
    percentage: u16,
    mint_again: AccountModel,
    now_again: i64,
    amount_again: u64,
    period_again: u64,
    percentage_again: u16,
)
    requires
        create_vested_outcome(program_id, authority, treasury, mint, now, amount, period, percentage) is Ok,
    ensures
        create_vested_outcome(
            program_id,
            authority,
            created_account(
                treasury,
                create_vested_outcome(program_id, authority, treasury, mint, now, amount, period, percentage)->Ok_0,
                program_id,
            ),
            mint_again,
            now_again,
            amount_again,
            period_again,
            percentage_again,
        ) == Err::<CreationModel, TreasuryError>(TreasuryError::TreasuryAlreadyExists),
{
    lemma_auto_spec_u64_to_from_le_bytes();
    let m = new_vested(authority.key, mint.key, now, amount, period, percentage);
    assert(spec_u64_to_le_bytes(m.withdrawn).len() == 8);
}

/// A simple treasury created locked can never be withdrawn from, whatever the
/// amount: every WithdrawSimple on it fails, and once its authority has signed
/// the failure is that the treasury is locked.
pub proof fn locked_treasury_never_withdraws(
    program_id: Seq<u8>,
    authority: AccountModel,
    treasury: AccountModel,
    mint: AccountModel,
    signer: AccountModel,
    recipient: AccountModel,
    fund_authority: AccountModel,
    fund: AccountModel,
    amount: u64,
)
    requires
        authority.key.len() == 32,
        mint.key.len() == 32,
        create_simple_outcome(program_id, authority, treasury, mint, SimpleTreasuryMode::Locked) is Ok,
    ensures
        ({
            let created = created_account(
                treasury,
                create_simple_outcome(program_id, authority, treasury, mint, SimpleTreasuryMode::Locked)->Ok_0,
                program_id,
            );
            &&& withdraw_simple_outcome(program_id, signer, recipient, created, fund_authority, fund, amount) is Err
            &&& (signer.is_signer && signer.key == authority.key) ==> withdraw_simple_outcome(
                program_id,
                signer,
                recipient,
                created,
                fund_authority,
                fund,
                amount,
            ) == Err::<TransferModel, TreasuryError>(TreasuryError::TreasuryIsLocked)
        }),
{
    simple_round_trip(SimpleTreasuryModel { mint: mint.key, mode: SimpleTreasuryMode::Locked, authority: authority.key });
}

} // verus!
