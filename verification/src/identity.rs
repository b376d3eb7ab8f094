//! Streamer identities: the link between a wallet and a streamer id that
//! the platform vouches for, and who may collect what a creator is owed.

use vstd::prelude::*;
use vstd::utf8::encode_utf8;
use crate::curve::BondingCurve;
use crate::errors::HorseFunError;
use crate::events::{CtoEvent, StreamerIdentityCancelledEvent, StreamerIdentityRegisteredEvent};
use crate::keys::{platform_authority, withdraw_authority, Pubkey};

verus! {

/// Most bytes a streamer id may take.
pub const MAX_STREAMER_ID_LEN: usize = 50;

/// The number of bytes that a text takes in UTF-8.
pub open spec fn byte_len(text: Seq<char>) -> nat {
    encode_utf8(text).len()
}

/// Whether a streamer id is well formed: not empty, and at most 50 bytes.
pub open spec fn streamer_id_valid(id: Seq<char>) -> bool {
    id.len() > 0 && byte_len(id) <= MAX_STREAMER_ID_LEN
}

/// A wallet's streamer identity.
#[derive(Debug, PartialEq, Eq)]
pub struct StreamerIdentity {
    pub wallet: Pubkey,
    pub streamer_id: String,
    /// Set by the platform when it registers the identity.
    pub verified: bool,
}

/// The wallet that a streamer id is registered to.
#[derive(Debug, PartialEq, Eq)]
pub struct StreamerIdRegistry {
    pub streamer_id: String,
    pub wallet: Pubkey,
}

impl StreamerIdentity {
    /// Bytes that the record takes in storage.
    pub const SIZE: usize = 8 + 32 + 50 + 1;
}

impl StreamerIdRegistry {
    /// Bytes that the record takes in storage.
    pub const SIZE: usize = 8 + 50 + 32;
}

/// What a caller handed in to prove a streamer identity.
#[derive(Debug, PartialEq, Eq)]
pub enum IdentityProof {
    /// No identity account.
    Missing,
    /// An account whose contents are no streamer identity.
    Unreadable,
    /// An account holding this identity.
    Identity(StreamerIdentity),
}

/// Whether `user` may collect what the creator of `curve` is owed. The
/// withdraw authority always may. Where the curve names a streamer id,
/// only a wallet proving a verified identity with that id may; where it
/// names none, only the creator's wallet may.
pub open spec fn creator_authorized(user: Pubkey, curve: BondingCurve, evidence: IdentityProof)
    -> bool {
    user == withdraw_authority() || match curve.creator_streamer_id {
        Some(expected) => evidence matches IdentityProof::Identity(identity) && identity.wallet
            == user && identity.verified && identity.streamer_id@ == expected@,
        None => user == curve.creator_wallet,
    }
}

/// Whether `user` may collect what the creator of `curve` is owed.
pub fn is_creator_authorized(user: &Pubkey, curve: &BondingCurve, evidence: &IdentityProof) -> (allowed:
    bool)
    ensures
        allowed == creator_authorized(*user, *curve, *evidence),
{
    if *user == withdraw_authority() {
        return true;
    }
    match &curve.creator_streamer_id {
        Some(expected) => match evidence {
            IdentityProof::Identity(identity) => identity.wallet == *user && identity.verified
                && identity.streamer_id == *expected,
            _ => false,
        },
        None => *user == curve.creator_wallet,
    }
}

/// Whether a streamer id is well formed.
pub fn is_streamer_id_valid(id: &String) -> (valid: bool)
    ensures
        valid == streamer_id_valid(id@),
{
    let text = id.as_str();
    !text.is_empty() && text.as_bytes().len() <= MAX_STREAMER_ID_LEN
}

/// Whether an optional streamer id is absent or well formed.
pub fn is_optional_id_valid(id: &Option<String>) -> (valid: bool)
    ensures
        valid == match *id {
            Some(text) => streamer_id_valid(text@),
            None => true,
        },
{
    match id {
        Some(text) => is_streamer_id_valid(text),
        None => true,
    }
}

/// A copy of an optional streamer id.
pub fn copy_of_id(id: &Option<String>) -> (copy: Option<String>)
    ensures
        copy == *id,
{
    match id {
        Some(text) => Some(text.clone()),
        None => None,
    }
}

/// The accounts of registering a streamer identity.
#[derive(Debug, PartialEq, Eq)]
pub struct RegisterStreamerIdentity {
    /// The caller; it must be the platform authority.
    pub platform_authority: Pubkey,
    /// The wallet that the identity is for.
    pub user: Pubkey,
    /// The identity record, written by the registration.
    pub streamer_identity: StreamerIdentity,
    /// The registry record, written by the registration.
    pub streamer_id_registry: StreamerIdRegistry,
}

/// The accounts of cancelling a streamer identity.
#[derive(Debug, PartialEq, Eq)]
pub struct CancelStreamerIdentity {
    /// The caller; it must be the platform authority.
    pub platform_authority: Pubkey,
    /// The wallet that the identity is for.
    pub user: Pubkey,
    pub streamer_identity: StreamerIdentity,
    pub streamer_id_registry: StreamerIdRegistry,
}

/// The accounts of moving a curve's creator fees to another recipient.
#[derive(Debug, PartialEq, Eq)]
pub struct ReassignFeeRecipient {
    /// The caller; it must be the platform authority.
    pub platform_authority: Pubkey,
    pub mint: Pubkey,
    pub bonding_curve: BondingCurve,
}

/// Registers `streamer_id` as the verified identity of the wallet. Only
/// the platform authority may, and the id must be well formed; a refusal
/// changes nothing.
pub fn register_streamer_identity(
    ctx: &mut RegisterStreamerIdentity,
    streamer_id: String,
    timestamp: i64,
) -> (done: Result<StreamerIdentityRegisteredEvent, HorseFunError>)
    ensures
        match done {
            Ok(event) => {
                &&& old(ctx).platform_authority == platform_authority()
                &&& streamer_id_valid(streamer_id@)
                &&& *final(ctx) == (RegisterStreamerIdentity {
                    streamer_identity: StreamerIdentity {
                        wallet: old(ctx).user,
                        streamer_id,
                        verified: true,
                    },
                    streamer_id_registry: StreamerIdRegistry {
                        streamer_id,
                        wallet: old(ctx).user,
                    },
                    ..*old(ctx)
                })
                &&& event == (StreamerIdentityRegisteredEvent {
                    user: old(ctx).user,
                    streamer_id,
                    timestamp,
                })
            },
            Err(e) => {
                &&& *final(ctx) == *old(ctx)
                &&& e == if old(ctx).platform_authority != platform_authority() {
                    HorseFunError::NotAuthorized
                } else {
                    HorseFunError::InvalidStreamerId
                }
                &&& old(ctx).platform_authority != platform_authority() || !streamer_id_valid(
                    streamer_id@,
                )
            },
        },
{
    if ctx.platform_authority != platform_authority() {
        return Err(HorseFunError::NotAuthorized);
    }
    if !is_streamer_id_valid(&streamer_id) {
        return Err(HorseFunError::InvalidStreamerId);
    }
    ctx.streamer_id_registry.streamer_id = streamer_id.clone();
    ctx.streamer_id_registry.wallet = ctx.user;
    ctx.streamer_identity.wallet = ctx.user;
    ctx.streamer_identity.streamer_id = streamer_id.clone();
    ctx.streamer_identity.verified = true;
    Ok(StreamerIdentityRegisteredEvent { user: ctx.user, streamer_id, timestamp })
}

impl CancelStreamerIdentity {
    /// Why the cancellation is refused, if it is. In order: the caller is
    /// not the platform authority; the id is not the one in both records;
    /// the wallet is not the one in both records.
    pub open spec fn refusal(self, streamer_id: Seq<char>) -> Option<HorseFunError> {
        if self.platform_authority != platform_authority() {
            Some(HorseFunError::NotAuthorized)
        } else if self.streamer_identity.streamer_id@ != streamer_id
            || self.streamer_id_registry.streamer_id@ != streamer_id {
            Some(HorseFunError::InvalidStreamerId)
        } else if self.streamer_identity.wallet != self.user || self.streamer_id_registry.wallet
            != self.user {
            Some(HorseFunError::UnauthorizedUser)
        } else {
            None
        }
    }
}

/// Cancels the wallet's streamer identity. It says whether the two
/// records may be closed; closing them is the caller's to do.
pub fn cancel_streamer_identity(ctx: &CancelStreamerIdentity, streamer_id: String, timestamp: i64)
    -> (done: Result<StreamerIdentityCancelledEvent, HorseFunError>)
    ensures
        match done {
            Ok(event) => {
                &&& ctx.refusal(streamer_id@) is None
                &&& event == (StreamerIdentityCancelledEvent {
                    user: ctx.user,
                    streamer_id,
                    timestamp,
                })
            },
            Err(e) => ctx.refusal(streamer_id@) == Some(e),
        },
{
    if ctx.platform_authority != platform_authority() {
        return Err(HorseFunError::NotAuthorized);
    }
    if !(ctx.streamer_identity.streamer_id == streamer_id && ctx.streamer_id_registry.streamer_id
        == streamer_id) {
        return Err(HorseFunError::InvalidStreamerId);
    }
    if !(ctx.streamer_identity.wallet == ctx.user && ctx.streamer_id_registry.wallet == ctx.user) {
        return Err(HorseFunError::UnauthorizedUser);
    }
    Ok(StreamerIdentityCancelledEvent { user: ctx.user, streamer_id, timestamp })
}

/// Makes `new_recipient`, with `new_streamer_id`, the one that the curve's
/// creator fees belong to. Only the platform authority may, and a streamer
/// id must be well formed; a refusal changes nothing.
pub fn reassign_fee_recipient(
    ctx: &mut ReassignFeeRecipient,
    new_recipient: Pubkey,
    new_streamer_id: Option<String>,
    timestamp: i64,
) -> (done: Result<CtoEvent, HorseFunError>)
    ensures
        match done {
            Ok(event) => {
                &&& old(ctx).platform_authority == platform_authority()
                &&& new_streamer_id matches Some(id) ==> streamer_id_valid(id@)
                &&& *final(ctx) == (ReassignFeeRecipient {
                    bonding_curve: BondingCurve {
                        creator_wallet: new_recipient,
                        creator_streamer_id: new_streamer_id,
                        ..old(ctx).bonding_curve
                    },
                    ..*old(ctx)
                })
                &&& event == (CtoEvent {
                    mint: old(ctx).mint,
                    old_creator: old(ctx).bonding_curve.creator_wallet,
                    old_streamer_id: old(ctx).bonding_curve.creator_streamer_id,
                    new_creator: new_recipient,
                    new_streamer_id,
                    platform_authority: old(ctx).platform_authority,
                    timestamp,
                })
            },
            Err(e) => {
                &&& *final(ctx) == *old(ctx)
                &&& e == if old(ctx).platform_authority != platform_authority() {
                    HorseFunError::NotAuthorized
                } else {
                    HorseFunError::InvalidStreamerId
                }
                &&& old(ctx).platform_authority != platform_authority() || (
                new_streamer_id matches Some(id) && !streamer_id_valid(id@))
            },
        },
        final(ctx).bonding_curve.early_bird_share_per_seat == old(ctx).bonding_curve.early_bird_share_per_seat,
        old(ctx).bonding_curve.wf() ==> final(ctx).bonding_curve.wf(),
{
    if ctx.platform_authority != platform_authority() {
        return Err(HorseFunError::NotAuthorized);
    }
    if !is_optional_id_valid(&new_streamer_id) {
        return Err(HorseFunError::InvalidStreamerId);
    }
    let old_creator = ctx.bonding_curve.creator_wallet;
    let old_streamer_id = copy_of_id(&ctx.bonding_curve.creator_streamer_id);
    ctx.bonding_curve.creator_wallet = new_recipient;
    ctx.bonding_curve.creator_streamer_id = copy_of_id(&new_streamer_id);
    Ok(
        CtoEvent {
            mint: ctx.mint,
            old_creator,
            old_streamer_id,
            new_creator: new_recipient,
            new_streamer_id,
            platform_authority: ctx.platform_authority,
            timestamp,
        },
    )
}

} // verus!
