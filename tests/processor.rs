use solana_program::program_option::COption;
use solana_program::program_pack::Pack;
use solana_program::pubkey::Pubkey;
use spl_token::state::{Account, AccountState, Mint};
use treasury::account::{Settings, SimpleTreasury, SimpleTreasuryMode, VestedTreasury};
use treasury::address::Address;
use treasury::error::TreasuryError;
use treasury::processor::Processor;
use treasury::snapshot::AccountSnapshot;
use treasury::token::{get_associated_token_address, is_valid_mint, token_program_id, verify_associated};

fn addr(k: &Pubkey) -> Address {
    Address { bytes: k.to_bytes() }
}

fn account(key: Pubkey, owner: Pubkey, is_signer: bool, data: Vec<u8>) -> AccountSnapshot {
    AccountSnapshot { key: addr(&key), owner: addr(&owner), is_signer, data }
}

fn mint_data() -> Vec<u8> {
    let mint = Mint {
        mint_authority: COption::None,
        supply: 1_000_000,
        decimals: 6,
        is_initialized: true,
        freeze_authority: COption::None,
    };
    let mut data = vec![0u8; Mint::LEN];
    Mint::pack(mint, &mut data).unwrap();
    data
}

fn token_data(mint: &Pubkey, owner: &Pubkey, amount: u64) -> Vec<u8> {
    let acct = Account {
        mint: *mint,
        owner: *owner,
        amount,
        delegate: COption::None,
        state: AccountState::Initialized,
        is_native: COption::None,
        delegated_amount: 0,
        close_authority: COption::None,
    };
    let mut data = vec![0u8; Account::LEN];
    Account::pack(acct, &mut data).unwrap();
    data
}

struct Setup {
    program: Pubkey,
    mint: Pubkey,
    authority: Pubkey,
}

fn setup() -> Setup {
    Setup { program: Pubkey::new_unique(), mint: Pubkey::new_unique(), authority: Pubkey::new_unique() }
}

fn mint_account(s: &Setup) -> AccountSnapshot {
    account(s.mint, spl_token::id(), false, mint_data())
}

fn authority_account(s: &Setup, is_signer: bool) -> AccountSnapshot {
    account(s.authority, Pubkey::default(), is_signer, vec![])
}

fn pda(s: &Setup, tag: &[u8]) -> Pubkey {
    Pubkey::find_program_address(&[tag, &s.authority.to_bytes()], &s.program).0
}

#[test]
fn token_program_id_is_spl_token() {
    assert_eq!(token_program_id(), addr(&spl_token::id()));
}

#[test]
fn associated_address_matches_standard() {
    let wallet = Pubkey::new_unique();
    let mint = Pubkey::new_unique();
    let expected = spl_associated_token_account::get_associated_token_address(&wallet, &mint);
    assert_eq!(get_associated_token_address(&addr(&wallet), &addr(&mint)), Some(addr(&expected)));
}

#[test]
fn mint_validity_follows_layout() {
    let data = mint_data();
    assert!(is_valid_mint(&data));
    assert!(!is_valid_mint(&data[..81]));
    let mut uninit = data.clone();
    uninit[45] = 0;
    assert!(!is_valid_mint(&uninit));
    let mut bad_tag = data.clone();
    bad_tag[0] = 2;
    assert!(!is_valid_mint(&bad_tag));
    assert!(!is_valid_mint(&token_data(&Pubkey::new_unique(), &Pubkey::new_unique(), 1)));
}

#[test]
fn associated_check_errors() {
    let mint = Pubkey::new_unique();
    let owner = Pubkey::new_unique();
    let acct = account(Pubkey::new_unique(), spl_token::id(), false, token_data(&mint, &owner, 77));
    assert_eq!(verify_associated(&acct, &addr(&owner), &addr(&mint)), Ok(77));
    assert_eq!(
        verify_associated(&acct, &addr(&owner), &addr(&Pubkey::new_unique())),
        Err(TreasuryError::MintWrongToken)
    );
    assert_eq!(
        verify_associated(&acct, &addr(&Pubkey::new_unique()), &addr(&mint)),
        Err(TreasuryError::InvalidAssociatedAccount)
    );
    let garbage = account(Pubkey::new_unique(), spl_token::id(), false, vec![1, 2, 3]);
    assert_eq!(verify_associated(&garbage, &addr(&owner), &addr(&mint)), Err(TreasuryError::InvalidAssociatedAccount));
    let mut uninit = token_data(&mint, &owner, 5);
    uninit[108] = 0;
    let uninit = account(Pubkey::new_unique(), spl_token::id(), false, uninit);
    assert_eq!(verify_associated(&uninit, &addr(&owner), &addr(&mint)), Err(TreasuryError::InvalidAssociatedAccount));
}

#[test]
fn initialize_creates_settings_once() {
    let s = setup();
    let (key, bump) = Pubkey::find_program_address(&[b"settings"], &s.program);
    let settings = account(key, Pubkey::default(), false, vec![]);
    let c = Processor::process_initialize(&addr(&s.program), &settings, &mint_account(&s)).unwrap();
    assert_eq!(c.address, addr(&key));
    assert_eq!(c.space, 32);
    assert_eq!(Settings::from_bytes(&c.data), Some(Settings { token: addr(&s.mint) }));
    assert_eq!(c.signer_seeds, vec![b"settings".to_vec(), vec![bump]]);

    let created = account(key, s.program, false, c.data.clone());
    assert_eq!(
        Processor::process_initialize(&addr(&s.program), &created, &mint_account(&s)),
        Err(TreasuryError::AlreadyInitialized)
    );
    assert_eq!(created.data, c.data);
}

#[test]
fn initialize_errors() {
    let s = setup();
    let wrong = account(Pubkey::new_unique(), Pubkey::default(), false, vec![]);
    assert_eq!(
        Processor::process_initialize(&addr(&s.program), &wrong, &mint_account(&s)),
        Err(TreasuryError::InvalidSettingsKey)
    );
    let (key, _) = Pubkey::find_program_address(&[b"settings"], &s.program);
    let settings = account(key, Pubkey::default(), false, vec![]);
    let not_mint = account(s.mint, spl_token::id(), false, vec![0; 82]);
    assert_eq!(
        Processor::process_initialize(&addr(&s.program), &settings, &not_mint),
        Err(TreasuryError::TokenNotSPLToken)
    );
}

#[test]
fn create_simple_treasury_once() {
    let s = setup();
    let (key, bump) = Pubkey::find_program_address(&[b"simple", &s.authority.to_bytes()], &s.program);
    let treasury = account(key, Pubkey::default(), false, vec![]);
    let c = Processor::process_create_simple_treasury(
        &addr(&s.program),
        &authority_account(&s, true),
        &treasury,
        &mint_account(&s),
        SimpleTreasuryMode::Unlocked,
    )
    .unwrap();
    assert_eq!(c.address, addr(&key));
    assert_eq!(c.space, 65);
    assert_eq!(
        SimpleTreasury::from_bytes(&c.data),
        Some(SimpleTreasury { mint: addr(&s.mint), mode: SimpleTreasuryMode::Unlocked, authority: addr(&s.authority) })
    );
    assert_eq!(c.signer_seeds, vec![b"simple".to_vec(), s.authority.to_bytes().to_vec(), vec![bump]]);

    let created = account(key, s.program, false, c.data);
    assert_eq!(
        Processor::process_create_simple_treasury(
            &addr(&s.program),
            &authority_account(&s, true),
            &created,
            &mint_account(&s),
            SimpleTreasuryMode::Locked,
        ),
        Err(TreasuryError::TreasuryAlreadyExists)
    );
}

#[test]
fn create_simple_treasury_errors() {
    let s = setup();
    let key = pda(&s, b"simple");
    let treasury = account(key, Pubkey::default(), false, vec![]);
    let wrong = account(Pubkey::new_unique(), Pubkey::default(), false, vec![]);
    let p = addr(&s.program);
    assert_eq!(
        Processor::process_create_simple_treasury(&p, &authority_account(&s, true), &wrong, &mint_account(&s), SimpleTreasuryMode::Locked),
        Err(TreasuryError::InvalidTreasuryAddress)
    );
    assert_eq!(
        Processor::process_create_simple_treasury(&p, &authority_account(&s, false), &treasury, &mint_account(&s), SimpleTreasuryMode::Locked),
        Err(TreasuryError::MissingAuthoritySignature)
    );
    let not_mint = account(s.mint, spl_token::id(), false, vec![]);
    assert_eq!(
        Processor::process_create_simple_treasury(&p, &authority_account(&s, true), &treasury, &not_mint, SimpleTreasuryMode::Locked),
        Err(TreasuryError::TokenNotSPLToken)
    );
}

struct Withdrawal {
    treasury: AccountSnapshot,
    fund_authority: AccountSnapshot,
    fund: AccountSnapshot,
    recipient: AccountSnapshot,
    bump: u8,
}

fn withdrawal_accounts(s: &Setup, treasury_tag: &[u8], authority_tag: &[u8], data: Vec<u8>, balance: u64) -> Withdrawal {
    let key = pda(s, treasury_tag);
    let (fa, bump) = Pubkey::find_program_address(&[authority_tag, &key.to_bytes()], &s.program);
    let fund_key = spl_associated_token_account::get_associated_token_address(&fa, &s.mint);
    let recipient_key = spl_associated_token_account::get_associated_token_address(&s.authority, &s.mint);
    Withdrawal {
        treasury: account(key, s.program, false, data),
        fund_authority: account(fa, Pubkey::default(), false, vec![]),
        fund: account(fund_key, spl_token::id(), false, token_data(&s.mint, &fa, balance)),
        recipient: account(recipient_key, spl_token::id(), false, token_data(&s.mint, &s.authority, 0)),
        bump,
    }
}

fn simple_data(s: &Setup, mode: SimpleTreasuryMode) -> Vec<u8> {
    SimpleTreasury { mint: addr(&s.mint), mode, authority: addr(&s.authority) }.to_bytes()
}

fn withdraw_simple(s: &Setup, w: &Withdrawal, signer: bool, amount: u64) -> Result<treasury::snapshot::TokenTransfer, TreasuryError> {
    Processor::process_withdraw_simple(
        &addr(&s.program),
        &authority_account(s, signer),
        &w.recipient,
        &w.treasury,
        &w.fund_authority,
        &w.fund,
        amount,
    )
}

#[test]
fn withdraw_simple_unlocked_transfers() {
    let s = setup();
    let w = withdrawal_accounts(&s, b"simple", b"simple authority", simple_data(&s, SimpleTreasuryMode::Unlocked), 500);
    let t = withdraw_simple(&s, &w, true, 300).unwrap();
    assert_eq!(t.source, w.fund.key);
    assert_eq!(t.destination, w.recipient.key);
    assert_eq!(t.authority, w.fund_authority.key);
    assert_eq!(t.amount, 300);
    assert_eq!(t.signer_seeds, vec![b"simple authority".to_vec(), w.treasury.key.bytes.to_vec(), vec![w.bump]]);
}

#[test]
fn withdraw_simple_locked_always_fails() {
    let s = setup();
    let w = withdrawal_accounts(&s, b"simple", b"simple authority", simple_data(&s, SimpleTreasuryMode::Locked), 500);
    for amount in [0, 1, 500, u64::MAX] {
        assert_eq!(withdraw_simple(&s, &w, true, amount).unwrap_err(), TreasuryError::TreasuryIsLocked);
    }
}

#[test]
fn withdraw_simple_errors() {
    let s = setup();
    let data = simple_data(&s, SimpleTreasuryMode::Unlocked);
    let w = withdrawal_accounts(&s, b"simple", b"simple authority", data.clone(), 500);
    assert_eq!(withdraw_simple(&s, &w, false, 1).unwrap_err(), TreasuryError::MissingAuthoritySignature);

    let mut foreign = withdrawal_accounts(&s, b"simple", b"simple authority", data.clone(), 500);
    foreign.treasury.owner = addr(&Pubkey::new_unique());
    assert_eq!(withdraw_simple(&s, &foreign, true, 1).unwrap_err(), TreasuryError::InvalidTreasuryFundAccount);

    let corrupt = withdrawal_accounts(&s, b"simple", b"simple authority", vec![1, 2, 3], 500);
    assert_eq!(withdraw_simple(&s, &corrupt, true, 1).unwrap_err(), TreasuryError::InvalidTreasuryFundAccount);

    let other = SimpleTreasury { mint: addr(&s.mint), mode: SimpleTreasuryMode::Unlocked, authority: addr(&Pubkey::new_unique()) };
    let w2 = withdrawal_accounts(&s, b"simple", b"simple authority", other.to_bytes(), 500);
    assert_eq!(withdraw_simple(&s, &w2, true, 1).unwrap_err(), TreasuryError::InvalidTreasuryOwner);

    let mut bad_fa = withdrawal_accounts(&s, b"simple", b"simple authority", data.clone(), 500);
    bad_fa.fund_authority.key = addr(&Pubkey::new_unique());
    assert_eq!(withdraw_simple(&s, &bad_fa, true, 1).unwrap_err(), TreasuryError::InvalidTreasuryFundAuthorityAddress);

    let mut bad_fund = withdrawal_accounts(&s, b"simple", b"simple authority", data.clone(), 500);
    bad_fund.fund.key = addr(&Pubkey::new_unique());
    assert_eq!(withdraw_simple(&s, &bad_fund, true, 1).unwrap_err(), TreasuryError::InvalidTreasuryFundAddress);

    let mut wrong_mint = withdrawal_accounts(&s, b"simple", b"simple authority", data.clone(), 500);
    wrong_mint.recipient.data = token_data(&Pubkey::new_unique(), &s.authority, 0);
    assert_eq!(withdraw_simple(&s, &wrong_mint, true, 1).unwrap_err(), TreasuryError::MintWrongToken);

    let mut wrong_owner = withdrawal_accounts(&s, b"simple", b"simple authority", data, 500);
    wrong_owner.recipient.data = token_data(&s.mint, &Pubkey::new_unique(), 0);
    assert_eq!(withdraw_simple(&s, &wrong_owner, true, 1).unwrap_err(), TreasuryError::InvalidAssociatedAccount);
}

fn create_vested(s: &Setup, treasury: &AccountSnapshot, amount: u64, period: u64, percentage: u16) -> Result<treasury::snapshot::CreateAccount, TreasuryError> {
    Processor::process_create_vested_treasury(
        &addr(&s.program),
        &authority_account(s, false),
        treasury,
        &mint_account(s),
        1_000,
        amount,
        period,
        percentage,
    )
}

#[test]
fn create_vested_treasury_record() {
    let s = setup();
    let (key, bump) = Pubkey::find_program_address(&[b"vested", &s.authority.to_bytes()], &s.program);
    let treasury = account(key, Pubkey::default(), false, vec![]);
    let c = create_vested(&s, &treasury, 100_000, 60, 500).unwrap();
    assert_eq!(c.space, 98);
    assert_eq!(c.signer_seeds, vec![b"vested".to_vec(), s.authority.to_bytes().to_vec(), vec![bump]]);
    assert_eq!(
        VestedTreasury::from_bytes(&c.data),
        Some(VestedTreasury {
            mint: addr(&s.mint),
            authority: addr(&s.authority),
            initial_amount: 100_000,
            start: 1_000,
            vestment_period: 60,
            vestment_percentage: 500,
            withdrawn: 0,
        })
    );
    let created = account(key, s.program, false, c.data);
    assert_eq!(create_vested(&s, &created, 5, 5, 5).unwrap_err(), TreasuryError::TreasuryAlreadyExists);
}

#[test]
fn create_vested_treasury_errors() {
    let s = setup();
    let treasury = account(pda(&s, b"vested"), Pubkey::default(), false, vec![]);
    assert_eq!(create_vested(&s, &treasury, 0, 60, 500).unwrap_err(), TreasuryError::InvalidVestmentAmount);
    assert_eq!(create_vested(&s, &treasury, 1, 0, 500).unwrap_err(), TreasuryError::InvalidVestmentPeriod);
    assert_eq!(create_vested(&s, &treasury, 1, 1, 0).unwrap_err(), TreasuryError::InvalidVestmentPercentage);
    assert_eq!(create_vested(&s, &treasury, 1, 1, 10_001).unwrap_err(), TreasuryError::InvalidVestmentPercentage);
    assert!(create_vested(&s, &treasury, 1, 1, 10_000).is_ok());
    assert!(create_vested(&s, &treasury, 1, 1, 1).is_ok());
    let wrong = account(pda(&s, b"simple"), Pubkey::default(), false, vec![]);
    assert_eq!(create_vested(&s, &wrong, 1, 1, 1).unwrap_err(), TreasuryError::InvalidTreasuryAddress);
}

fn vested_record(s: &Setup, withdrawn: u64) -> VestedTreasury {
    VestedTreasury {
        mint: addr(&s.mint),
        authority: addr(&s.authority),
        initial_amount: 100_000,
        start: 0,
        vestment_period: 60,
        vestment_percentage: 500,
        withdrawn,
    }
}

fn withdraw_vested(s: &Setup, w: &Withdrawal, now: i64) -> Result<Option<treasury::snapshot::VestedWithdrawal>, TreasuryError> {
    Processor::process_withdraw_vested(
        &addr(&s.program),
        &authority_account(s, true),
        &w.recipient,
        &w.treasury,
        &w.fund_authority,
        &w.fund,
        now,
    )
}

#[test]
fn withdraw_vested_sequence_stays_within_unlocked() {
    let s = setup();
    let mut data = vested_record(&s, 0).to_bytes();
    let mut withdrawn = 0;
    for now in [0, 30, 60, 61, 150, 150, 1_199, 1_200, 9_999] {
        let w = withdrawal_accounts(&s, b"vested", b"vested authority", data.clone(), 1_000_000);
        match withdraw_vested(&s, &w, now).unwrap() {
            Some(out) => {
                let t = VestedTreasury::from_bytes(&out.treasury_data).unwrap();
                assert_eq!(t.withdrawn, withdrawn + out.transfer.amount);
                assert!(out.transfer.amount > 0);
                assert_eq!(out.transfer.signer_seeds, vec![b"vested authority".to_vec(), w.treasury.key.bytes.to_vec(), vec![w.bump]]);
                data = out.treasury_data;
            }
            None => {}
        }
        let t = VestedTreasury::from_bytes(&data).unwrap();
        assert!(t.withdrawn >= withdrawn);
        assert!(t.withdrawn <= t.maximum_available(now));
        assert!(t.maximum_available(now) <= t.initial_amount);
        withdrawn = t.withdrawn;
    }
    assert_eq!(withdrawn, 100_000);
}

#[test]
fn withdraw_vested_amounts() {
    let s = setup();
    let w = withdrawal_accounts(&s, b"vested", b"vested authority", vested_record(&s, 0).to_bytes(), 1_000_000);
    let out = withdraw_vested(&s, &w, 125).unwrap().unwrap();
    assert_eq!(out.transfer.amount, 10_000);
    assert_eq!(out.transfer.source, w.fund.key);
    assert_eq!(out.transfer.destination, w.recipient.key);
    assert_eq!(out.transfer.authority, w.fund_authority.key);
    assert_eq!(VestedTreasury::from_bytes(&out.treasury_data), Some(vested_record(&s, 10_000)));

    let before = withdrawal_accounts(&s, b"vested", b"vested authority", vested_record(&s, 0).to_bytes(), 1_000_000);
    assert!(withdraw_vested(&s, &before, 59).unwrap().is_none());
    let done = withdrawal_accounts(&s, b"vested", b"vested authority", vested_record(&s, 10_000).to_bytes(), 1_000_000);
    assert!(withdraw_vested(&s, &done, 179).unwrap().is_none());
}

#[test]
fn withdraw_vested_records_only_what_is_paid() {
    // the fund holds less than has unlocked: only the balance is paid and recorded
    let s = setup();
    let w = withdrawal_accounts(&s, b"vested", b"vested authority", vested_record(&s, 0).to_bytes(), 3_000);
    let out = withdraw_vested(&s, &w, 600).unwrap().unwrap();
    assert_eq!(out.transfer.amount, 3_000);
    assert_eq!(VestedTreasury::from_bytes(&out.treasury_data).unwrap().withdrawn, 3_000);
    let later = withdrawal_accounts(&s, b"vested", b"vested authority", out.treasury_data, 1_000_000);
    let out = withdraw_vested(&s, &later, 600).unwrap().unwrap();
    assert_eq!(out.transfer.amount, 47_000);
    assert_eq!(VestedTreasury::from_bytes(&out.treasury_data).unwrap().withdrawn, 50_000);
    let empty = withdrawal_accounts(&s, b"vested", b"vested authority", vested_record(&s, 0).to_bytes(), 0);
    assert!(withdraw_vested(&s, &empty, 600).unwrap().is_none());
}

#[test]
fn withdraw_vested_errors() {
    let s = setup();
    let mut malformed = vested_record(&s, 0);
    malformed.vestment_period = 0;
    let w = withdrawal_accounts(&s, b"vested", b"vested authority", malformed.to_bytes(), 10);
    assert_eq!(withdraw_vested(&s, &w, 100).unwrap_err(), TreasuryError::InvalidTreasuryFundAccount);
    let mut bad_fa = withdrawal_accounts(&s, b"vested", b"vested authority", vested_record(&s, 0).to_bytes(), 10);
    bad_fa.fund_authority.key = addr(&Pubkey::new_unique());
    assert_eq!(withdraw_vested(&s, &bad_fa, 100).unwrap_err(), TreasuryError::InvalidTreasuryFundAuthorityAddress);
    let mut bad_fund = withdrawal_accounts(&s, b"vested", b"vested authority", vested_record(&s, 0).to_bytes(), 10);
    bad_fund.fund.data = token_data(&s.mint, &Pubkey::new_unique(), 10);
    assert_eq!(withdraw_vested(&s, &bad_fund, 100).unwrap_err(), TreasuryError::InvalidAssociatedAccount);
}
