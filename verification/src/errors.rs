use vstd::prelude::*;

verus! {

/// Errors the marketplace reports for a rejected request.
#[derive(Debug, Clone, Copy, PartialEq, Eq, Structural)]
pub enum MarketError {
    /// Account passed in incorrectly
    WrongAccount,
    /// Order too small
    InsufficientOrderSize,
    /// Amount overflow
    AmountOverflow,
    /// Amount underflow
    AmountUnderflow,
    /// Unsupported NFT Type
    UnsupportedNft,
    /// Invalid NFT for Market
    InvalidNft,
    /// Invalid Royalties Account
    InvalidRoyaltiesAccount,
    /// Invalid Royalties Percentage
    InvalidRoyaltyPercentage,
    /// Total Royalty Percentage Exceeded
    TotalRoyaltyPercentageExceeded,
    /// Not Enough Remaining Accounts
    NotEnoughRemainingAccounts,
}

impl MarketError {
    /// The message attached to each error.
    pub open spec fn spec_message(self) -> &'static str {
        match self {
            MarketError::WrongAccount => "Account passed in incorrectly",
            MarketError::InsufficientOrderSize => "Order too small",
            MarketError::AmountOverflow => "Amount overflow",
            MarketError::AmountUnderflow => "Amount underflow",
            MarketError::UnsupportedNft => "Unsupported NFT Type",
            MarketError::InvalidNft => "Invalid NFT for Market",
            MarketError::InvalidRoyaltiesAccount => "Invalid Royalties Account",
            MarketError::InvalidRoyaltyPercentage => "Invalid Royalties Percentage",
            MarketError::TotalRoyaltyPercentageExceeded => "Total Royalty Percentage Exceeded",
            MarketError::NotEnoughRemainingAccounts => "Not Enough Remaining Accounts",
        }
    }

    /// The message attached to each error.
    pub fn message(&self) -> (s: &'static str)
        ensures
            s@ == self.spec_message()@,
    {
        match self {
            MarketError::WrongAccount => "Account passed in incorrectly",
            MarketError::InsufficientOrderSize => "Order too small",
            MarketError::AmountOverflow => "Amount overflow",
            MarketError::AmountUnderflow => "Amount underflow",
            MarketError::UnsupportedNft => "Unsupported NFT Type",
            MarketError::InvalidNft => "Invalid NFT for Market",
            MarketError::InvalidRoyaltiesAccount => "Invalid Royalties Account",
            MarketError::InvalidRoyaltyPercentage => "Invalid Royalties Percentage",
            MarketError::TotalRoyaltyPercentageExceeded => "Total Royalty Percentage Exceeded",
            MarketError::NotEnoughRemainingAccounts => "Not Enough Remaining Accounts",
        }
    }
}

} // verus!

verus! {

/// `solana_program`'s error type, carried through as it came.
#[verifier::external_type_specification]
#[verifier::external_body]
pub struct ExProgramError(solana_program::program_error::ProgramError);

/// Why a marketplace request is refused.
#[derive(Debug)]
pub enum MarketplaceError {
    /// One of the checks that the request's accounts must pass failed.
    ConstraintViolated,
    /// An account's data does not decode.
    AccountDataUnreadable,
    /// The marketplace's own refusal.
    Market(MarketError),
    /// An error that came back from reading an account.
    Program(solana_program::program_error::ProgramError),
}

} // verus!
