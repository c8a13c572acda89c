use vstd::prelude::*;

verus! {

/// Every way an instruction of the treasury program can be refused.
#[derive(Debug, Clone, Copy, PartialEq, Eq, Structural)]
pub enum TreasuryError {
    /// Invalid instruction
    InvalidInstruction,
    /// Program has already been initialized
    AlreadyInitialized,
    /// Program has not been initialized
    NotInitialized,
    /// Invalid Settings Key
    InvalidSettingsKey,
    /// The authority did not sign the transaction
    MissingAuthoritySignature,
    /// Invalid Treasury Address
    InvalidTreasuryAddress,
    /// Invalid Treasury Owner
    InvalidTreasuryOwner,
    /// Invalid Treasury Fund Authority Address
    InvalidTreasuryFundAuthorityAddress,
    /// Invalid Treasury Fund Address
    InvalidTreasuryFundAddress,
    /// Invalid Treasury Fund Account
    InvalidTreasuryFundAccount,
    /// Treasury Already Exists
    TreasuryAlreadyExists,
    /// The token is not a valid SPL Token Mint
    TokenNotSPLToken,
    /// Mint is invalid
    MintInvalid,
    /// Mint is for the wrong token
    MintWrongToken,
    /// Invalid Vestment Percentage (must be between 1 and 10,000)
    InvalidVestmentPercentage,
    /// Invalid Vestment Period (must be > 0)
    InvalidVestmentPeriod,
    /// Invalid Vestment Amount (must be > 0)
    InvalidVestmentAmount,
    /// Invalid Recipient
    InvalidRecipient,
    /// Invalid Recipient Account
    InvalidRecipientAccount,
    /// The treasury is locked and can never be withdrawn from
    TreasuryIsLocked,
    /// A token account is not the expected associated account
    InvalidAssociatedAccount,
    /// A community name is empty
    NameTooShort,
    /// A community name is longer than the limit
    NameTooLong,
    /// A community name holds a character outside the allowed set
    NameInvalidCharacters,
}

impl TreasuryError {
    /// The human-readable message of this error.
    pub fn message(&self) -> (r: &'static str) {
        match self {
            TreasuryError::InvalidInstruction => "Invalid instruction",
            TreasuryError::AlreadyInitialized => "Program has already been initialized",
            TreasuryError::NotInitialized => "Program has not been initialized",
            TreasuryError::InvalidSettingsKey => "Invalid Settings Key",
            TreasuryError::MissingAuthoritySignature => "The authority did not sign the transaction",
            TreasuryError::InvalidTreasuryAddress => "Invalid Treasury Address",
            TreasuryError::InvalidTreasuryOwner => "Invalid Treasury Owner",
            TreasuryError::InvalidTreasuryFundAuthorityAddress => "Invalid Treasury Fund Authority Address",
            TreasuryError::InvalidTreasuryFundAddress => "Invalid Treasury Fund Address",
            TreasuryError::InvalidTreasuryFundAccount => "Invalid Treasury Fund Account",
            TreasuryError::TreasuryAlreadyExists => "Treasury Already Exists",
            TreasuryError::TokenNotSPLToken => "The token is not a valid SPL Token Mint",
            TreasuryError::MintInvalid => "Mint is invalid",
            TreasuryError::MintWrongToken => "Mint is for the wrong token",
            TreasuryError::InvalidVestmentPercentage => "Invalid Vestment Percentage (must be between 1 and 10,000)",
            TreasuryError::InvalidVestmentPeriod => "Invalid Vestment Period (must be > 0)",
            TreasuryError::InvalidVestmentAmount => "Invalid Vestment Amount (must be > 0)",
            TreasuryError::InvalidRecipient => "Invalid Recipient",
            TreasuryError::InvalidRecipientAccount => "Invalid Recipient Account",
            TreasuryError::TreasuryIsLocked => "Treasury is locked",
            TreasuryError::InvalidAssociatedAccount => "Invalid Associated Account",
            TreasuryError::NameTooShort => "Name is too short",
            TreasuryError::NameTooLong => "Name is too long",
            TreasuryError::NameInvalidCharacters => "Name contains invalid characters",
        }
    }
}

} // verus!
