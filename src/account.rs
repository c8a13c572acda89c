use vstd::prelude::*;
use vstd::bytes::{spec_u64_from_le_bytes, spec_u64_to_le_bytes, spec_u16_from_le_bytes, spec_u16_to_le_bytes, lemma_auto_spec_u64_to_from_le_bytes, lemma_auto_spec_u16_to_from_le_bytes};
use vstd::string::StringSliceAdditionalSpecFns;
use vstd::arithmetic::div_mod::lemma_div_is_ordered;
use vstd::arithmetic::mul::lemma_mul_inequality;
use crate::address::Address;
use crate::derivation::{derived_bump, program_address, tagged, tagged_seeds, verify_derived_address, derive_address};
use crate::error::TreasuryError;
use crate::snapshot::{AccountModel, AccountSnapshot};

verus! {

/// Reads the 32 bytes at `pos` of an encoded record.
pub open spec fn key_at(s: Seq<u8>, pos: int) -> Seq<u8> {
    s.subrange(pos, pos + 32)
}

/// The program-wide settings record: the token that treasuries hold.
#[derive(Clone, Copy, Debug, PartialEq, Eq)]
pub struct Settings {
    pub token: Address,
}

pub struct SettingsModel {
    pub token: Seq<u8>,
}

impl View for Settings {
    type V = SettingsModel;

    open spec fn view(&self) -> SettingsModel {
        SettingsModel { token: self.token@ }
    }
}

pub const SETTINGS_LEN: usize = 32;

/// The encoding of a settings record.
pub open spec fn settings_bytes(m: SettingsModel) -> Seq<u8> {
    m.token
}

/// The settings record that `s` encodes, if any.
pub open spec fn settings_decode(s: Seq<u8>) -> Option<SettingsModel> {
    if s.len() == SETTINGS_LEN {
        Some(SettingsModel { token: key_at(s, 0) })
    } else {
        None
    }
}

impl Settings {
    pub fn to_bytes(&self) -> (r: Vec<u8>)
        ensures
            r@ == settings_bytes(self@),
    {
        let mut out: Vec<u8> = Vec::new();
        self.token.write_to(&mut out);
        assert(out@ =~= settings_bytes(self@));
        out
    }

    pub fn from_bytes(data: &[u8]) -> (r: Option<Settings>)
        ensures
            match r {
                Some(x) => settings_decode(data@) == Some(x@),
                None => settings_decode(data@) is None,
            },
    {
        if data.len() != SETTINGS_LEN {
            return None;
        }
        Some(Settings { token: Address::read(data, 0) })
    }
}

/// Whether a simple treasury can be withdrawn from.
#[derive(Clone, Copy, Debug, PartialEq, Eq, Structural)]
pub enum SimpleTreasuryMode {
    Locked,
    Unlocked,
}

/// The one-byte tag that encodes a mode.
pub open spec fn mode_tag(m: SimpleTreasuryMode) -> u8 {
    match m {
        SimpleTreasuryMode::Locked => 0,
        SimpleTreasuryMode::Unlocked => 1,
    }
}

/// The mode that a tag byte encodes, if any.
pub open spec fn mode_of_tag(b: u8) -> Option<SimpleTreasuryMode> {
    if b == 0 {
        Some(SimpleTreasuryMode::Locked)
    } else if b == 1 {
        Some(SimpleTreasuryMode::Unlocked)
    } else {
        None
    }
}

impl SimpleTreasuryMode {
    pub fn tag(&self) -> (r: u8)
        ensures
            r == mode_tag(*self),
    {
        match self {
            SimpleTreasuryMode::Locked => 0,
            SimpleTreasuryMode::Unlocked => 1,
        }
    }

    pub fn from_tag(b: u8) -> (r: Option<SimpleTreasuryMode>)
        ensures
            r == mode_of_tag(b),
    {
        if b == 0 {
            Some(SimpleTreasuryMode::Locked)
        } else if b == 1 {
            Some(SimpleTreasuryMode::Unlocked)
        } else {
            None
        }
    }
}

/// A treasury that is either locked for good or freely withdrawable by its
/// authority, holding tokens of one mint.
#[derive(Clone, Copy, Debug, PartialEq, Eq)]
pub struct SimpleTreasury {
    pub mint: Address,
    pub mode: SimpleTreasuryMode,
    pub authority: Address,
}

pub struct SimpleTreasuryModel {
    pub mint: Seq<u8>,
    pub mode: SimpleTreasuryMode,
    pub authority: Seq<u8>,
}

impl View for SimpleTreasury {
    type V = SimpleTreasuryModel;

    open spec fn view(&self) -> SimpleTreasuryModel {
        SimpleTreasuryModel { mint: self.mint@, mode: self.mode, authority: self.authority@ }
    }
}

pub const SIMPLE_TREASURY_LEN: usize = 65;

/// The encoding of a simple treasury: mint, mode tag, authority.
pub open spec fn simple_bytes(m: SimpleTreasuryModel) -> Seq<u8> {
    m.mint + seq![mode_tag(m.mode)] + m.authority
}

/// The simple treasury that `s` encodes, if any.
pub open spec fn simple_decode(s: Seq<u8>) -> Option<SimpleTreasuryModel> {
    if s.len() == SIMPLE_TREASURY_LEN && mode_of_tag(s[32]) is Some {
        Some(SimpleTreasuryModel { mint: key_at(s, 0), mode: mode_of_tag(s[32])->0, authority: key_at(s, 33) })
    } else {
        None
    }
}

/// The tag of the seeds of a simple treasury's address.
pub open spec fn simple_tag() -> Seq<u8> {
    "simple".spec_bytes()
}

/// The tag of the seeds of a simple treasury's fund authority.
pub open spec fn simple_authority_tag() -> Seq<u8> {
    "simple authority".spec_bytes()
}

/// The outcome of loading a simple treasury record for an authority.
pub open spec fn simple_from_account(treasury: AccountModel, authority: AccountModel, program_id: Seq<u8>) -> Result<SimpleTreasuryModel, TreasuryError> {
    if treasury.owner != program_id {
        Err(TreasuryError::InvalidTreasuryFundAccount)
    } else {
        match simple_decode(treasury.data) {
            None => Err(TreasuryError::InvalidTreasuryFundAccount),
            Some(t) => if !authority.is_signer {
                Err(TreasuryError::MissingAuthoritySignature)
            } else if t.authority != authority.key {
                Err(TreasuryError::InvalidTreasuryOwner)
            } else {
                Ok(t)
            },
        }
    }
}

impl SimpleTreasury {
    pub fn to_bytes(&self) -> (r: Vec<u8>)
        ensures
            r@ == simple_bytes(self@),
    {
        let mut out: Vec<u8> = Vec::new();
        self.mint.write_to(&mut out);
        out.push(self.mode.tag());
        self.authority.write_to(&mut out);
        assert(out@ =~= simple_bytes(self@));
        out
    }

    pub fn from_bytes(data: &[u8]) -> (r: Option<SimpleTreasury>)
        ensures
            match r {
                Some(x) => simple_decode(data@) == Some(x@),
                None => simple_decode(data@) is None,
            },
    {
        if data.len() != SIMPLE_TREASURY_LEN {
            return None;
        }
        match SimpleTreasuryMode::from_tag(data[32]) {
            None => None,
            Some(mode) => Some(SimpleTreasury { mint: Address::read(data, 0), mode, authority: Address::read(data, 33) }),
        }
    }

    /// Loads the treasury record held by `treasury_info`, checking that this
    /// program owns it and that `authority_info` is its authority and signed.
    pub fn from_account_info(treasury_info: &AccountSnapshot, authority_info: &AccountSnapshot, program_id: &Address) -> (r: Result<SimpleTreasury, TreasuryError>)
        ensures
            match r {
                Ok(t) => simple_from_account(treasury_info@, authority_info@, program_id@) == Ok::<SimpleTreasuryModel, TreasuryError>(t@),
                Err(e) => simple_from_account(treasury_info@, authority_info@, program_id@) == Err::<SimpleTreasuryModel, TreasuryError>(e),
            },
    {
        if !treasury_info.owner.same_as(program_id) {
            return Err(TreasuryError::InvalidTreasuryFundAccount);
        }
        let treasury = match SimpleTreasury::from_bytes(treasury_info.data.as_slice()) {
            Some(t) => t,
            None => return Err(TreasuryError::InvalidTreasuryFundAccount),
        };
        if !authority_info.is_signer {
            return Err(TreasuryError::MissingAuthoritySignature);
        }
        if !treasury.authority.same_as(&authority_info.key) {
            return Err(TreasuryError::InvalidTreasuryOwner);
        }
        Ok(treasury)
    }

    /// Derives the address that signs for the fund of the treasury at `treasury_id`.
    pub fn fund_authority_address(treasury_id: &Address, program_id: &Address) -> (r: Option<(Address, u8)>)
        ensures
            match r {
                Some((a, bump)) => program_address(tagged_seeds(simple_authority_tag(), treasury_id@), program_id@) == Some((a@, bump)),
                None => program_address(tagged_seeds(simple_authority_tag(), treasury_id@), program_id@) is None,
            },
    {
        derive_address(&tagged("simple authority".as_bytes(), treasury_id), program_id)
    }

    /// Checks that `key` is the fund authority of the treasury at
    /// `treasury_id`; returns its bump seed.
    pub fn verify_fund_authority_address(key: &Address, treasury_id: &Address, program_id: &Address) -> (r: Result<u8, TreasuryError>)
        ensures
            match derived_bump(key@, tagged_seeds(simple_authority_tag(), treasury_id@), program_id@) {
                Some(bump) => r == Ok::<u8, TreasuryError>(bump),
                None => r == Err::<u8, TreasuryError>(TreasuryError::InvalidTreasuryFundAuthorityAddress),
            },
    {
        match verify_derived_address(key, &tagged("simple authority".as_bytes(), treasury_id), program_id) {
            Some(bump) => Ok(bump),
            None => Err(TreasuryError::InvalidTreasuryFundAuthorityAddress),
        }
    }
}

/// A treasury whose principal unlocks a fixed share per elapsed period.
#[derive(Clone, Copy, Debug, PartialEq, Eq)]
pub struct VestedTreasury {
    pub mint: Address,
    pub authority: Address,
    pub initial_amount: u64,
    pub start: i64,
    pub vestment_period: u64,
    pub vestment_percentage: u16,
    pub withdrawn: u64,
}

pub struct VestedTreasuryModel {
    pub mint: Seq<u8>,
    pub authority: Seq<u8>,
    pub initial_amount: u64,
    pub start: i64,
    pub vestment_period: u64,
    pub vestment_percentage: u16,
    pub withdrawn: u64,
}

impl View for VestedTreasury {
    type V = VestedTreasuryModel;

    open spec fn view(&self) -> VestedTreasuryModel {
        VestedTreasuryModel {
            mint: self.mint@,
            authority: self.authority@,
            initial_amount: self.initial_amount,
            start: self.start,
            vestment_period: self.vestment_period,
            vestment_percentage: self.vestment_percentage,
            withdrawn: self.withdrawn,
        }
    }
}

pub const VESTED_TREASURY_LEN: usize = 98;

pub const MIN_PERCENTAGE: u16 = 1;

pub const MAX_PERCENTAGE: u16 = 10_000;

/// The encoding of a vested treasury: mint, authority, then the amounts and
/// times as little-endian integers.
pub open spec fn vested_bytes(m: VestedTreasuryModel) -> Seq<u8> {
    m.mint + m.authority + spec_u64_to_le_bytes(m.initial_amount) + spec_u64_to_le_bytes(m.start as u64)
        + spec_u64_to_le_bytes(m.vestment_period) + spec_u16_to_le_bytes(m.vestment_percentage)
        + spec_u64_to_le_bytes(m.withdrawn)
}

/// The vested treasury that `s` encodes, if any.
pub open spec fn vested_decode(s: Seq<u8>) -> Option<VestedTreasuryModel> {
    if s.len() == VESTED_TREASURY_LEN {
        Some(VestedTreasuryModel {
            mint: key_at(s, 0),
            authority: key_at(s, 32),
            initial_amount: spec_u64_from_le_bytes(s.subrange(64, 72)),
            start: spec_u64_from_le_bytes(s.subrange(72, 80)) as i64,
            vestment_period: spec_u64_from_le_bytes(s.subrange(80, 88)),
            vestment_percentage: spec_u16_from_le_bytes(s.subrange(88, 90)),
            withdrawn: spec_u64_from_le_bytes(s.subrange(90, 98)),
        })
    } else {
        None
    }
}

/// What a vested treasury record holds once created: a positive principal and
/// period, a share within bounds, and no more withdrawn than the principal.
pub open spec fn vested_well_formed(m: VestedTreasuryModel) -> bool {
    &&& m.initial_amount > 0
    &&& m.vestment_period > 0
    &&& MIN_PERCENTAGE <= m.vestment_percentage <= MAX_PERCENTAGE
    &&& m.withdrawn <= m.initial_amount
}

/// The amount unlocked in each full period: the share (in basis points) of the
/// principal, rounded down.
pub open spec fn amount_per_period(initial_amount: u64, percentage: u16) -> int {
    (initial_amount as int * percentage as int) / 10_000
}

/// The cumulative amount unlocked at time `now`: one share per full period
/// elapsed since the start, never more than the principal, and nothing before
/// the first period ends.
pub open spec fn unlocked_at(m: VestedTreasuryModel, now: i64) -> int {
    let elapsed = now as int - m.start as int;
    if elapsed <= 0 {
        0
    } else {
        let raw = amount_per_period(m.initial_amount, m.vestment_percentage) * (elapsed / m.vestment_period as int);
        if raw > m.initial_amount as int {
            m.initial_amount as int
        } else {
            raw
        }
    }
}

/// The tag of the seeds of a vested treasury's address.
pub open spec fn vested_tag() -> Seq<u8> {
    "vested".spec_bytes()
}

/// The tag of the seeds of a vested treasury's fund authority.
pub open spec fn vested_authority_tag() -> Seq<u8> {
    "vested authority".spec_bytes()
}

/// The outcome of loading a vested treasury record for an authority.
pub open spec fn vested_from_account(treasury: AccountModel, authority: AccountModel, program_id: Seq<u8>) -> Result<VestedTreasuryModel, TreasuryError> {
    if treasury.owner != program_id {
        Err(TreasuryError::InvalidTreasuryFundAccount)
    } else {
        match vested_decode(treasury.data) {
            None => Err(TreasuryError::InvalidTreasuryFundAccount),
            Some(t) => if !vested_well_formed(t) {
                Err(TreasuryError::InvalidTreasuryFundAccount)
            } else if !authority.is_signer {
                Err(TreasuryError::MissingAuthoritySignature)
            } else if t.authority != authority.key {
                Err(TreasuryError::InvalidTreasuryOwner)
            } else {
                Ok(t)
            },
        }
    }
}

fn push_all(out: &mut Vec<u8>, bytes: Vec<u8>)
    ensures
        final(out)@ == old(out)@ + bytes@,
{
    let mut b = bytes;
    out.append(&mut b);
}

impl VestedTreasury {
    pub fn to_bytes(&self) -> (r: Vec<u8>)
        ensures
            r@ == vested_bytes(self@),
    {
        let mut out: Vec<u8> = Vec::new();
        self.mint.write_to(&mut out);
        self.authority.write_to(&mut out);
        push_all(&mut out, vstd::bytes::u64_to_le_bytes(self.initial_amount));
        push_all(&mut out, vstd::bytes::u64_to_le_bytes(self.start as u64));
        push_all(&mut out, vstd::bytes::u64_to_le_bytes(self.vestment_period));
        push_all(&mut out, vstd::bytes::u16_to_le_bytes(self.vestment_percentage));
        push_all(&mut out, vstd::bytes::u64_to_le_bytes(self.withdrawn));
        out
    }

    pub fn from_bytes(data: &[u8]) -> (r: Option<VestedTreasury>)
        ensures
            match r {
                Some(x) => vested_decode(data@) == Some(x@),
                None => vested_decode(data@) is None,
            },
    {
        if data.len() != VESTED_TREASURY_LEN {
            return None;
        }
        let initial_amount = vstd::bytes::u64_from_le_bytes(vstd::slice::slice_subrange(data, 64, 72));
        let start = vstd::bytes::u64_from_le_bytes(vstd::slice::slice_subrange(data, 72, 80)) as i64;
        let vestment_period = vstd::bytes::u64_from_le_bytes(vstd::slice::slice_subrange(data, 80, 88));
        let vestment_percentage = vstd::bytes::u16_from_le_bytes(vstd::slice::slice_subrange(data, 88, 90));
        let withdrawn = vstd::bytes::u64_from_le_bytes(vstd::slice::slice_subrange(data, 90, 98));
        Some(VestedTreasury {
            mint: Address::read(data, 0),
            authority: Address::read(data, 32),
            initial_amount,
            start,
            vestment_period,
            vestment_percentage,
            withdrawn,
        })
    }

    /// Loads the treasury record held by `treasury_info`, checking that this
    /// program owns it, that it is well formed, and that `authority_info` is
    /// its authority and signed.
    pub fn from_account_info(treasury_info: &AccountSnapshot, authority_info: &AccountSnapshot, program_id: &Address) -> (r: Result<VestedTreasury, TreasuryError>)
        ensures
            match r {
                Ok(t) => vested_from_account(treasury_info@, authority_info@, program_id@) == Ok::<VestedTreasuryModel, TreasuryError>(t@),
                Err(e) => vested_from_account(treasury_info@, authority_info@, program_id@) == Err::<VestedTreasuryModel, TreasuryError>(e),
            },
    {
        if !treasury_info.owner.same_as(program_id) {
            return Err(TreasuryError::InvalidTreasuryFundAccount);
        }
        let treasury = match VestedTreasury::from_bytes(treasury_info.data.as_slice()) {
            Some(t) => t,
            None => return Err(TreasuryError::InvalidTreasuryFundAccount),
        };
        if !treasury.is_well_formed() {
            return Err(TreasuryError::InvalidTreasuryFundAccount);
        }
        if !authority_info.is_signer {
            return Err(TreasuryError::MissingAuthoritySignature);
        }
        if !treasury.authority.same_as(&authority_info.key) {
            return Err(TreasuryError::InvalidTreasuryOwner);
        }
        Ok(treasury)
    }

    pub fn is_well_formed(&self) -> (r: bool)
        ensures
            r == vested_well_formed(self@),
    {
        self.initial_amount > 0 && self.vestment_period > 0 && MIN_PERCENTAGE <= self.vestment_percentage
            && self.vestment_percentage <= MAX_PERCENTAGE && self.withdrawn <= self.initial_amount
    }

    /// Derives the address that signs for the fund of the treasury at `treasury_id`.
    pub fn fund_authority_address(treasury_id: &Address, program_id: &Address) -> (r: Option<(Address, u8)>)
        ensures
            match r {
                Some((a, bump)) => program_address(tagged_seeds(vested_authority_tag(), treasury_id@), program_id@) == Some((a@, bump)),
                None => program_address(tagged_seeds(vested_authority_tag(), treasury_id@), program_id@) is None,
            },
    {
        derive_address(&tagged("vested authority".as_bytes(), treasury_id), program_id)
    }

    /// Checks that `key` is the fund authority of the treasury at
    /// `treasury_id`; returns its bump seed.
    pub fn verify_fund_authority_address(key: &Address, treasury_id: &Address, program_id: &Address) -> (r: Result<u8, TreasuryError>)
        ensures
            match derived_bump(key@, tagged_seeds(vested_authority_tag(), treasury_id@), program_id@) {
                Some(bump) => r == Ok::<u8, TreasuryError>(bump),
                None => r == Err::<u8, TreasuryError>(TreasuryError::InvalidTreasuryFundAuthorityAddress),
            },
    {
        match verify_derived_address(key, &tagged("vested authority".as_bytes(), treasury_id), program_id) {
            Some(bump) => Ok(bump),
            None => Err(TreasuryError::InvalidTreasuryFundAuthorityAddress),
        }
    }

    /// The cumulative amount unlocked at time `now`.
    pub fn maximum_available(&self, now: i64) -> (r: u64)
        requires
            self.vestment_period > 0,
        ensures
            r as int == unlocked_at(self@, now),
    {
        let elapsed: i128 = now as i128 - self.start as i128;
        if elapsed <= 0 {
            return 0;
        }
        let ticks: u64 = (elapsed as u64) / self.vestment_period;
        let initial: u128 = self.initial_amount as u128;
        let share: u128 = self.vestment_percentage as u128;
        assert(initial * share < 0x1_0000_0000_0000_0000_0000_0000_0000_0000) by (nonlinear_arith)
            requires initial < 0x1_0000_0000_0000_0000, share < 0x1_0000;
        let per_period: u128 = (self.initial_amount as u128 * self.vestment_percentage as u128) / 10_000;
        assert(per_period as int == amount_per_period(self.initial_amount, self.vestment_percentage));
        if ticks == 0 {
            assert(amount_per_period(self.initial_amount, self.vestment_percentage) * 0 == 0);
            return 0;
        }
        if per_period >= self.initial_amount as u128 {
            assert(per_period * ticks >= per_period) by (nonlinear_arith)
                requires ticks >= 1;
            return self.initial_amount;
        }
        assert(per_period * ticks < 0x1_0000_0000_0000_0000_0000_0000_0000_0000) by (nonlinear_arith)
            requires per_period < 0x1_0000_0000_0000_0000, ticks < 0x1_0000_0000_0000_0000;
        let raw: u128 = per_period * ticks as u128;
        if raw > self.initial_amount as u128 {
            self.initial_amount
        } else {
            raw as u64
        }
    }
}

/// Decoding an encoded settings record gives it back.
pub proof fn settings_round_trip(m: SettingsModel)
    requires
        m.token.len() == 32,
    ensures
        settings_decode(settings_bytes(m)) == Some(m),
{
    assert(key_at(settings_bytes(m), 0) =~= m.token);
}

/// Decoding an encoded simple treasury gives it back.
pub proof fn simple_round_trip(m: SimpleTreasuryModel)
    requires
        m.mint.len() == 32,
        m.authority.len() == 32,
    ensures
        simple_decode(simple_bytes(m)) == Some(m),
{
    let s = simple_bytes(m);
    assert(key_at(s, 0) =~= m.mint);
    assert(key_at(s, 33) =~= m.authority);
    assert(s[32] == mode_tag(m.mode));
}


/// The amount unlocked never shrinks as time passes, and never passes the
/// principal.
pub proof fn unlocked_is_monotonic(m: VestedTreasuryModel, earlier: i64, later: i64)
    requires
        m.vestment_period > 0,
        earlier <= later,
    ensures
        0 <= unlocked_at(m, earlier),
        unlocked_at(m, earlier) <= unlocked_at(m, later),
        unlocked_at(m, later) <= m.initial_amount,
{
    let per = amount_per_period(m.initial_amount, m.vestment_percentage);
    let period = m.vestment_period as int;
    let e1 = earlier as int - m.start as int;
    let e2 = later as int - m.start as int;
    assert(per >= 0) by (nonlinear_arith)
        requires per == (m.initial_amount as int * m.vestment_percentage as int) / 10_000;
    if e2 > 0 {
        assert(e2 / period >= 0) by (nonlinear_arith)
            requires e2 > 0, period > 0;
        assert(per * (e2 / period) >= 0) by (nonlinear_arith)
            requires per >= 0, e2 / period >= 0;
    }
    if e1 > 0 {
        lemma_div_is_ordered(e1, e2, period);
        assert(e1 / period >= 0) by (nonlinear_arith)
            requires e1 > 0, period > 0;
        lemma_mul_inequality(e1 / period, e2 / period, per);
        assert(per * (e1 / period) >= 0) by (nonlinear_arith)
            requires per >= 0, e1 / period >= 0;
        assert(per * (e1 / period) == (e1 / period) * per);
        assert(per * (e2 / period) == (e2 / period) * per);
    }
}

/// Decoding an encoded vested treasury gives it back.
pub proof fn vested_round_trip(m: VestedTreasuryModel)
    requires
        m.mint.len() == 32,
        m.authority.len() == 32,
    ensures
        vested_decode(vested_bytes(m)) == Some(m),
{
    lemma_auto_spec_u64_to_from_le_bytes();
    lemma_auto_spec_u16_to_from_le_bytes();
    let s = vested_bytes(m);
    assert(key_at(s, 0) =~= m.mint);
    assert(key_at(s, 32) =~= m.authority);
    assert(s.subrange(64, 72) =~= spec_u64_to_le_bytes(m.initial_amount));
    assert(s.subrange(72, 80) =~= spec_u64_to_le_bytes(m.start as u64));
    assert(s.subrange(80, 88) =~= spec_u64_to_le_bytes(m.vestment_period));
    assert(s.subrange(88, 90) =~= spec_u16_to_le_bytes(m.vestment_percentage));
    assert(s.subrange(90, 98) =~= spec_u64_to_le_bytes(m.withdrawn));
    let start = m.start;
    assert(((start as u64) as i64) == start) by (bit_vector);
}

} // verus!
