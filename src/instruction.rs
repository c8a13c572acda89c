use vstd::prelude::*;
use vstd::bytes::{spec_u64_from_le_bytes, spec_u64_to_le_bytes, spec_u16_from_le_bytes, spec_u16_to_le_bytes, lemma_auto_spec_u64_to_from_le_bytes, lemma_auto_spec_u16_to_from_le_bytes};
use crate::account::{mode_of_tag, mode_tag, SimpleTreasuryMode};

verus! {

/// The instructions of the treasury program. Each is encoded as a one-byte
/// opcode (its position here) followed by its fields, little-endian.
#[derive(Clone, Copy, Debug, PartialEq, Eq, Structural)]
pub enum TreasuryInstruction {
    /// Create the settings record.
    ///
    /// Accounts expected by this instruction:
    ///   0. `[signer, writable]` The account funding the instruction
    ///   1. `[writable]` The settings account
    ///   2. `[]` The SPL Token mint the program is bound to
    ///   3. `[]` Rent sysvar
    ///   4. `[]` System Program
    Initialize,
    /// Create Simple Treasury
    ///
    /// Initializes a treasury for a specific user. SOL fees are paid by the funder.
    ///
    /// Accounts expected by this instruction:
    ///   0. `[signer, writable]` The account funding the instruction
    ///   1. `[signer]` The authority that controls the treasury
    ///   2. `[writable]` The treasury account
    ///   3. `[]` The SPL Token mint used for this treasury
    ///   4. `[]` Rent sysvar
    ///   5. `[]` System Program
    CreateSimpleTreasury { mode: SimpleTreasuryMode },
    /// Withdraw from a Simple Treasury
    ///
    /// With a specified amount from an Unlocked Simple Treasury
    ///
    /// Accounts expected by this instruction:
    ///   0. `[signer, writable]` The account funding the instruction
    ///   1. `[signer]` The authority that controls the treasury
    ///   2. `[writable]` The recipient token address (must be owned by authority)
    ///   3. `[]` The treasury account
    ///   4. `[]` The treasury's fund authority
    ///   5. `[writable]` The treasury's fund associated account
    ///   6. `[]` Token Program
    WithdrawSimple { amount: u64 },
    /// Create Vested Treasury
    ///
    /// Initializes a vested treasury. SOL fees are paid by the funder.
    ///
    /// Accounts expected by this instruction:
    ///   0. `[signer, writable]` The account funding the instruction
    ///   1. `[]` The authority that controls the treasury
    ///   2. `[writable]` The treasury account for the authority
    ///   3. `[]` The SPL Token mint this treasury is locked to
    ///   4. `[]` Rent sysvar
    ///   5. `[]` Clock sysvar
    ///   6. `[]` System Program
    CreatedVestedTreasury { amount: u64, period: u64, percentage: u16 },
    /// Withdraw from a Vested Treasury
    ///
    /// Withdraw everything that is possible to currently withdraw from the vested treasury.
    ///
    /// Accounts expected by this instruction:
    ///   0. `[signer, writable]` The account funding the instruction
    ///   1. `[signer]` The authority that controls the treasury
    ///   2. `[writable]` The recipient token address (must be owned by authority)
    ///   3. `[writable]` The treasury account
    ///   4. `[]` The treasury's fund authority
    ///   5. `[writable]` The treasury's fund associated account
    ///   6. `[]` Clock sysvar
    ///   7. `[]` SPL Token Program
    WithdrawVested,
}

/// The encoding of an instruction.
pub open spec fn instruction_bytes(i: TreasuryInstruction) -> Seq<u8> {
    match i {
        TreasuryInstruction::Initialize => seq![0u8],
        TreasuryInstruction::CreateSimpleTreasury { mode } => seq![1u8, mode_tag(mode)],
        TreasuryInstruction::WithdrawSimple { amount } => seq![2u8] + spec_u64_to_le_bytes(amount),
        TreasuryInstruction::CreatedVestedTreasury { amount, period, percentage } => seq![3u8]
            + spec_u64_to_le_bytes(amount) + spec_u64_to_le_bytes(period) + spec_u16_to_le_bytes(percentage),
        TreasuryInstruction::WithdrawVested => seq![4u8],
    }
}

/// The instruction that `s` encodes, if any: a known opcode, followed by
/// exactly the bytes of its fields.
pub open spec fn instruction_decode(s: Seq<u8>) -> Option<TreasuryInstruction> {
    if s.len() == 0 {
        None
    } else if s[0] == 0 && s.len() == 1 {
        Some(TreasuryInstruction::Initialize)
    } else if s[0] == 1 && s.len() == 2 && mode_of_tag(s[1]) is Some {
        Some(TreasuryInstruction::CreateSimpleTreasury { mode: mode_of_tag(s[1])->0 })
    } else if s[0] == 2 && s.len() == 9 {
        Some(TreasuryInstruction::WithdrawSimple { amount: spec_u64_from_le_bytes(s.subrange(1, 9)) })
    } else if s[0] == 3 && s.len() == 19 {
        Some(TreasuryInstruction::CreatedVestedTreasury {
            amount: spec_u64_from_le_bytes(s.subrange(1, 9)),
            period: spec_u64_from_le_bytes(s.subrange(9, 17)),
            percentage: spec_u16_from_le_bytes(s.subrange(17, 19)),
        })
    } else if s[0] == 4 && s.len() == 1 {
        Some(TreasuryInstruction::WithdrawVested)
    } else {
        None
    }
}

impl TreasuryInstruction {
    pub fn to_bytes(&self) -> (r: Vec<u8>)
        ensures
            r@ == instruction_bytes(*self),
    {
        let mut out: Vec<u8> = Vec::new();
        match *self {
            TreasuryInstruction::Initialize => {
                out.push(0);
            },
            TreasuryInstruction::CreateSimpleTreasury { mode } => {
                out.push(1);
                out.push(mode.tag());
            },
            TreasuryInstruction::WithdrawSimple { amount } => {
                out.push(2);
                let mut a = vstd::bytes::u64_to_le_bytes(amount);
                out.append(&mut a);
            },
            TreasuryInstruction::CreatedVestedTreasury { amount, period, percentage } => {
                out.push(3);
                let mut a = vstd::bytes::u64_to_le_bytes(amount);
                out.append(&mut a);
                let mut p = vstd::bytes::u64_to_le_bytes(period);
                out.append(&mut p);
                let mut c = vstd::bytes::u16_to_le_bytes(percentage);
                out.append(&mut c);
            },
            TreasuryInstruction::WithdrawVested => {
                out.push(4);
            },
        }
        assert(out@ =~= instruction_bytes(*self));
        out
    }

    pub fn from_bytes(data: &[u8]) -> (r: Option<TreasuryInstruction>)
        ensures
            r == instruction_decode(data@),
    {
        let n = data.len();
        if n == 0 {
            return None;
        }
        let op = data[0];
        if op == 0 && n == 1 {
            Some(TreasuryInstruction::Initialize)
        } else if op == 1 && n == 2 {
            match SimpleTreasuryMode::from_tag(data[1]) {
                Some(mode) => Some(TreasuryInstruction::CreateSimpleTreasury { mode }),
                None => None,
            }
        } else if op == 2 && n == 9 {
            let amount = vstd::bytes::u64_from_le_bytes(vstd::slice::slice_subrange(data, 1, 9));
            Some(TreasuryInstruction::WithdrawSimple { amount })
        } else if op == 3 && n == 19 {
            let amount = vstd::bytes::u64_from_le_bytes(vstd::slice::slice_subrange(data, 1, 9));
            let period = vstd::bytes::u64_from_le_bytes(vstd::slice::slice_subrange(data, 9, 17));
            let percentage = vstd::bytes::u16_from_le_bytes(vstd::slice::slice_subrange(data, 17, 19));
            Some(TreasuryInstruction::CreatedVestedTreasury { amount, period, percentage })
        } else if op == 4 && n == 1 {
            Some(TreasuryInstruction::WithdrawVested)
        } else {
            None
        }
    }
}

/// Decoding an encoded instruction gives it back.
pub proof fn instruction_round_trip(i: TreasuryInstruction)
    ensures
        instruction_decode(instruction_bytes(i)) == Some(i),
{
    lemma_auto_spec_u64_to_from_le_bytes();
    lemma_auto_spec_u16_to_from_le_bytes();
    let s = instruction_bytes(i);
    match i {
        TreasuryInstruction::WithdrawSimple { amount } => {
            assert(s.subrange(1, 9) =~= spec_u64_to_le_bytes(amount));
        },
        TreasuryInstruction::CreatedVestedTreasury { amount, period, percentage } => {
            assert(s.subrange(1, 9) =~= spec_u64_to_le_bytes(amount));
            assert(s.subrange(9, 17) =~= spec_u64_to_le_bytes(period));
            assert(s.subrange(17, 19) =~= spec_u16_to_le_bytes(percentage));
        },
        _ => {},
    }
}

} // verus!
