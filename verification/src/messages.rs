//! Messages with donations that anyone may leave for the creator of an
//! asset, and the creator's claim on the donations.

use vstd::prelude::*;
use crate::accounts::{pda_transfer_lamports, pda_transfer_outcome, AccountInfo};
use crate::curve::BondingCurve;
use crate::errors::HorseFunError;
use crate::events::{DonationClaimedEvent, MessageSentEvent};
use crate::identity::{byte_len, creator_authorized, is_creator_authorized, IdentityProof};
use crate::keys::Pubkey;

verus! {

/// Most bytes a message may take.
pub const MAX_MESSAGE_LEN: usize = 200;

/// A message and the donation that came with it.
#[derive(Debug, PartialEq, Eq)]
pub struct Message {
    pub sender: Pubkey,
    pub amount: u64,
    pub message: String,
    pub timestamp: i64,
}

/// The messages left for the creator of one asset.
#[derive(Debug, PartialEq, Eq)]
pub struct MessageList {
    pub mint: Pubkey,
    /// Lamports ever donated.
    pub total_received: u64,
    /// Lamports donated and not yet claimed.
    pub unclaimed_amount: u64,
    pub messages: Vec<Message>,
}

impl MessageList {
    /// Bytes that the list takes in storage, with room for 10 messages.
    pub const SIZE: usize = 8 + 32 + 8 + 8 + 4 + 10 * (32 + 8 + (4 + 200) + 8);
}

/// The accounts of leaving a message.
#[derive(Debug, PartialEq, Eq)]
pub struct SendMessage {
    pub mint: Pubkey,
    pub message_list: MessageList,
    /// The sender, who pays the donation into the list's account.
    pub user: Pubkey,
}

/// The accounts of a claim of donations.
#[derive(Debug, PartialEq, Eq)]
pub struct ClaimDonations {
    pub mint: Pubkey,
    pub bonding_curve: BondingCurve,
    pub message_list: MessageList,
    /// The list's own account, which pays.
    pub message_list_info: AccountInfo,
    /// The claimant, who is paid.
    pub user: AccountInfo,
    pub streamer_identity: IdentityProof,
}

impl SendMessage {
    /// Why the message is refused, if it is. In order: it is longer than
    /// 200 bytes; the donation is 0; a total would exceed 64 bits.
    pub open spec fn refusal(self, message: Seq<char>, amount: u64) -> Option<HorseFunError> {
        if byte_len(message) > MAX_MESSAGE_LEN {
            Some(HorseFunError::MessageTooLong)
        } else if amount == 0 {
            Some(HorseFunError::InsufficientDonationAmount)
        } else if self.message_list.total_received + amount > u64::MAX
            || self.message_list.unclaimed_amount + amount > u64::MAX {
            Some(HorseFunError::ArithmeticOverflow)
        } else {
            None
        }
    }
}

/// Leaves `message` with a donation of `amount` lamports, which the
/// sender is to pay into the list's account. The message joins the end of
/// the list and both totals grow by the donation. A refusal changes
/// nothing.
pub fn send_message(ctx: &mut SendMessage, message: String, amount: u64, timestamp: i64) -> (done:
    Result<MessageSentEvent, HorseFunError>)
    ensures
        match done {
            Ok(event) => {
                &&& old(ctx).refusal(message@, amount) is None
                &&& final(ctx).message_list.messages@ == old(ctx).message_list.messages@.push(
                    Message { sender: old(ctx).user, amount, message, timestamp },
                )
                &&& final(ctx).message_list.total_received == old(ctx).message_list.total_received
                    + amount
                &&& final(ctx).message_list.unclaimed_amount == old(ctx).message_list.unclaimed_amount + amount
                &&& final(ctx).message_list.mint == old(ctx).message_list.mint
                &&& final(ctx).mint == old(ctx).mint
                &&& final(ctx).user == old(ctx).user
                &&& event == (MessageSentEvent {
                    mint: old(ctx).mint,
                    sender: old(ctx).user,
                    amount,
                    message,
                    timestamp,
                })
            },
            Err(e) => old(ctx).refusal(message@, amount) == Some(e) && *final(ctx) == *old(ctx),
        },
{
    if message.as_str().as_bytes().len() > MAX_MESSAGE_LEN {
        return Err(HorseFunError::MessageTooLong);
    }
    if amount == 0 {
        return Err(HorseFunError::InsufficientDonationAmount);
    }
    let total = ctx.message_list.total_received.checked_add(amount);
    let unclaimed = ctx.message_list.unclaimed_amount.checked_add(amount);
    match (total, unclaimed) {
        (Some(total), Some(unclaimed)) => {
            ctx.message_list.messages.push(
                Message { sender: ctx.user, amount, message: message.clone(), timestamp },
            );
            ctx.message_list.total_received = total;
            ctx.message_list.unclaimed_amount = unclaimed;
            Ok(MessageSentEvent { mint: ctx.mint, sender: ctx.user, amount, message, timestamp })
        },
        _ => Err(HorseFunError::ArithmeticOverflow),
    }
}

impl ClaimDonations {
    /// Whether the claimant may collect the creator's donations.
    pub open spec fn authorized(&self) -> bool {
        creator_authorized(self.user.key, self.bonding_curve, self.streamer_identity)
    }

    /// Why the claim is refused, if it is. In order: nothing is unclaimed;
    /// the claimant is not authorized; the list's account cannot pay.
    pub open spec fn refusal(self) -> Option<HorseFunError> {
        if self.message_list.unclaimed_amount == 0 {
            Some(HorseFunError::NoDonationsToClaim)
        } else if !self.authorized() {
            Some(HorseFunError::UnauthorizedDonationClaim)
        } else {
            match pda_transfer_outcome(
                self.message_list_info,
                self.user,
                self.message_list.unclaimed_amount,
            ) {
                Err(e) => Some(e),
                Ok(_) => None,
            }
        }
    }

    /// Checks that the claimant may collect the creator's donations.
    pub fn validate(&self) -> (done: Result<(), HorseFunError>)
        ensures
            done == if self.authorized() {
                Ok::<(), HorseFunError>(())
            } else {
                Err::<(), HorseFunError>(HorseFunError::UnauthorizedDonationClaim)
            },
    {
        if is_creator_authorized(&self.user.key, &self.bonding_curve, &self.streamer_identity) {
            Ok(())
        } else {
            Err(HorseFunError::UnauthorizedDonationClaim)
        }
    }
}

/// Pays the creator all unclaimed donations from the list's account. The
/// total ever received stays. A refused claim changes nothing.
pub fn claim_donations(ctx: &mut ClaimDonations, timestamp: i64) -> (done: Result<
    DonationClaimedEvent,
    HorseFunError,
>)
    ensures
        match done {
            Ok(event) => {
                &&& old(ctx).refusal() is None
                &&& pda_transfer_outcome(
                    old(ctx).message_list_info,
                    old(ctx).user,
                    old(ctx).message_list.unclaimed_amount,
                ) == Ok::<(AccountInfo, AccountInfo), HorseFunError>(
                    (final(ctx).message_list_info, final(ctx).user),
                )
                &&& final(ctx).message_list == (MessageList {
                    unclaimed_amount: 0,
                    ..old(ctx).message_list
                })
                &&& final(ctx).mint == old(ctx).mint
                &&& final(ctx).bonding_curve == old(ctx).bonding_curve
                &&& final(ctx).streamer_identity == old(ctx).streamer_identity
                &&& event == (DonationClaimedEvent {
                    mint: old(ctx).mint,
                    creator: old(ctx).user.key,
                    amount: old(ctx).message_list.unclaimed_amount,
                    timestamp,
                    remaining_unclaimed: 0,
                })
            },
            Err(e) => old(ctx).refusal() == Some(e) && *final(ctx) == *old(ctx),
        },
{
    let unclaimed = ctx.message_list.unclaimed_amount;
    if unclaimed == 0 {
        return Err(HorseFunError::NoDonationsToClaim);
    }
    match ctx.validate() {
        Err(e) => {
            return Err(e);
        },
        Ok(()) => {},
    }
    match pda_transfer_lamports(&mut ctx.message_list_info, &mut ctx.user, unclaimed) {
        Err(e) => {
            return Err(e);
        },
        Ok(()) => {},
    }
    ctx.message_list.unclaimed_amount = 0;
    Ok(
        DonationClaimedEvent {
            mint: ctx.mint,
            creator: ctx.user.key,
            amount: unclaimed,
            timestamp,
            remaining_unclaimed: 0,
        },
    )
}

} // verus!
