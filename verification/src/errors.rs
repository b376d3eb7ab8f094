//! The ways an operation can be refused.

use vstd::prelude::*;

verus! {

/// Why an operation was refused. A refused operation changes nothing.
#[derive(Clone, Copy, Debug, PartialEq, Eq, Structural)]
pub enum HorseFunError {
    /// The four fee shares do not add up to 10000 basis points.
    InvalidFeeShares,
    /// A streamer id is empty, too long, or not the registered one.
    InvalidStreamerId,
    /// The streamer id belongs to another wallet.
    StreamerIdAlreadyRegistered,
    /// The caller is not the creator the fees belong to.
    UnauthorizedCreator,
    /// The creator fee pool is empty.
    NoFeesToClaim,
    /// The caller may not perform this operation.
    NotAuthorized,
    /// The configuration exists already.
    AlreadyInitialized,
    /// A buy would cost more than the caller allows.
    TooMuchSolRequired,
    /// A sell would pay less than the caller accepts.
    TooLittleSolReceived,
    /// The token account belongs to another asset.
    MintDoesNotMatchBondingCurve,
    /// The curve is finished; it trades no more.
    BondingCurveComplete,
    /// The curve is not finished yet.
    BondingCurveNotComplete,
    /// The configuration does not exist yet.
    NotInitialized,
    /// The wallet is not the one the identity belongs to.
    UnauthorizedUser,
    /// A slippage bound was violated.
    SlippageExceeded,
    /// An account does not hold the lamports it is asked to pay.
    InsufficientTreasuryFunds,
    /// A message is longer than 200 bytes.
    MessageTooLong,
    /// No donation is waiting to be claimed.
    NoDonationsToClaim,
    /// A payment of zero lamports.
    InsufficientDonationAmount,
    /// The caller is not the creator the donations belong to.
    UnauthorizedDonationClaim,
    /// An amount is out of range.
    InvalidAmount,
    /// The early-bird program is switched off.
    EarlyBirdDisabled,
    /// The caller holds no active early-bird seat.
    NotEarlyBird,
    /// The per-seat reward is zero.
    NoRewardsToClaim,
    /// Nobody holds an early-bird seat.
    NoEarlyBirds,
    /// A buy is below the qualifying minimum.
    BuyAmountTooSmall,
    /// Rewards are claimable only once the curve is finished.
    CurveNotComplete,
    /// The reward was claimed before.
    AlreadyClaimedEarlyBird,
    /// A quantity does not fit its range.
    ArithmeticOverflow,
}

impl HorseFunError {
    /// The text shown to a caller for this refusal.
    pub open spec fn message_text(self) -> Seq<char> {
        match self {
            HorseFunError::InvalidFeeShares => "Fee shares must add up to 100% (10000 basis points)"@,
            HorseFunError::InvalidStreamerId => "Invalid or missing streamer ID"@,
            HorseFunError::StreamerIdAlreadyRegistered => "Streamer ID already registered to another wallet"@,
            HorseFunError::UnauthorizedCreator => "Unauthorized creator"@,
            HorseFunError::NoFeesToClaim => "No fees available to claim"@,
            HorseFunError::NotAuthorized => "The given account is not authorized to execute this instruction."@,
            HorseFunError::AlreadyInitialized => "The program is already initialized."@,
            HorseFunError::TooMuchSolRequired => "slippage: Too much SOL required to buy the given amount of tokens."@,
            HorseFunError::TooLittleSolReceived => "slippage: Too little SOL received to sell the given amount of tokens."@,
            HorseFunError::MintDoesNotMatchBondingCurve => "The mint does not match the bonding curve."@,
            HorseFunError::BondingCurveComplete => "The bonding curve has completed and liquidity migrated to raydium."@,
            HorseFunError::BondingCurveNotComplete => "The bonding curve has not completed."@,
            HorseFunError::NotInitialized => "The program is not initialized."@,
            HorseFunError::UnauthorizedUser => "Unauthorized user"@,
            HorseFunError::SlippageExceeded => "Slippage tolerance exceeded"@,
            HorseFunError::InsufficientTreasuryFunds => "Insufficient funds in treasury for buyback"@,
            HorseFunError::MessageTooLong => "Message exceeds maximum length of 200 characters"@,
            HorseFunError::NoDonationsToClaim => "No donations available to claim"@,
            HorseFunError::InsufficientDonationAmount => "Insufficient donation amount"@,
            HorseFunError::UnauthorizedDonationClaim => "Only the creator or withdraw authority can claim donations"@,
            HorseFunError::InvalidAmount => "Invalid amount"@,
            HorseFunError::EarlyBirdDisabled => "Early bird rewards are disabled"@,
            HorseFunError::NotEarlyBird => "User is not an early bird (not in first X buyers)"@,
            HorseFunError::NoRewardsToClaim => "No rewards available to claim"@,
            HorseFunError::NoEarlyBirds => "No early birds registered yet"@,
            HorseFunError::BuyAmountTooSmall => "Buy amount below minimum required for Early Bird eligibility"@,
            HorseFunError::CurveNotComplete => "Bonding curve must be complete before claiming Early Bird rewards"@,
            HorseFunError::AlreadyClaimedEarlyBird => "Early Bird rewards already claimed - can only claim once"@,
            HorseFunError::ArithmeticOverflow => "Arithmetic overflow or underflow"@,
        }
    }

    /// The text shown to a caller for this refusal.
    pub fn message(self) -> (text: &'static str)
        ensures
            text@ == self.message_text(),
    {
        match self {
            HorseFunError::InvalidFeeShares => "Fee shares must add up to 100% (10000 basis points)",
            HorseFunError::InvalidStreamerId => "Invalid or missing streamer ID",
            HorseFunError::StreamerIdAlreadyRegistered => "Streamer ID already registered to another wallet",
            HorseFunError::UnauthorizedCreator => "Unauthorized creator",
            HorseFunError::NoFeesToClaim => "No fees available to claim",
            HorseFunError::NotAuthorized => "The given account is not authorized to execute this instruction.",
            HorseFunError::AlreadyInitialized => "The program is already initialized.",
            HorseFunError::TooMuchSolRequired => "slippage: Too much SOL required to buy the given amount of tokens.",
            HorseFunError::TooLittleSolReceived => "slippage: Too little SOL received to sell the given amount of tokens.",
            HorseFunError::MintDoesNotMatchBondingCurve => "The mint does not match the bonding curve.",
            HorseFunError::BondingCurveComplete => "The bonding curve has completed and liquidity migrated to raydium.",
            HorseFunError::BondingCurveNotComplete => "The bonding curve has not completed.",
            HorseFunError::NotInitialized => "The program is not initialized.",
            HorseFunError::UnauthorizedUser => "Unauthorized user",
            HorseFunError::SlippageExceeded => "Slippage tolerance exceeded",
            HorseFunError::InsufficientTreasuryFunds => "Insufficient funds in treasury for buyback",
            HorseFunError::MessageTooLong => "Message exceeds maximum length of 200 characters",
            HorseFunError::NoDonationsToClaim => "No donations available to claim",
            HorseFunError::InsufficientDonationAmount => "Insufficient donation amount",
            HorseFunError::UnauthorizedDonationClaim => "Only the creator or withdraw authority can claim donations",
            HorseFunError::InvalidAmount => "Invalid amount",
            HorseFunError::EarlyBirdDisabled => "Early bird rewards are disabled",
            HorseFunError::NotEarlyBird => "User is not an early bird (not in first X buyers)",
            HorseFunError::NoRewardsToClaim => "No rewards available to claim",
            HorseFunError::NoEarlyBirds => "No early birds registered yet",
            HorseFunError::BuyAmountTooSmall => "Buy amount below minimum required for Early Bird eligibility",
            HorseFunError::CurveNotComplete => "Bonding curve must be complete before claiming Early Bird rewards",
            HorseFunError::AlreadyClaimedEarlyBird => "Early Bird rewards already claimed - can only claim once",
            HorseFunError::ArithmeticOverflow => "Arithmetic overflow or underflow",
        }
    }
}

} // verus!
