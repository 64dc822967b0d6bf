//! The two halves of a transfer between chains: units leave the circulating
//! supply of one chain and join that of another. Nothing here proves to one
//! chain what happened on the other: that is the bridge's part.

use vstd::prelude::*;
use crate::accounts::{CompleteCrossChainTransfer, InitiateCrossChainTransfer};
use crate::codec::{borsh_transfer_fields, transfer_payload};
use crate::errors::ErrorCode;
use crate::events::{
    CrossChainEvent, CrossChainEventType, CrossChainEventView, CrossChainTransferCompleted,
    CrossChainTransferInitiated,
};
use crate::ledger::{asset_authority, TokenInstruction, TokenInstructionView};
use crate::levels::KYCLevel;
use crate::limits::HOME_CHAIN;
use crate::pubkey::Pubkey;
use crate::supply::SupplyOp;
use crate::text::utf8_len;

verus! {

/// What the destination of a transfer needs to know of it. The record is made
/// for one message and is not kept.
#[derive(Clone, Debug, PartialEq, Eq)]
pub struct CrossChainTransferData {
    pub asset_id: u64,
    pub amount: u64,
    pub recipient: [u8; 32],
    pub source_chain: u16,
    pub kyc_level: KYCLevel,
    pub metadata_uri: String,
}

pub struct CrossChainTransferDataView {
    pub asset_id: u64,
    pub amount: u64,
    pub recipient: Seq<u8>,
    pub source_chain: u16,
    pub kyc_level: KYCLevel,
    pub metadata_uri: Seq<char>,
}

impl View for CrossChainTransferData {
    type V = CrossChainTransferDataView;

    open spec fn view(&self) -> CrossChainTransferDataView {
        CrossChainTransferDataView {
            asset_id: self.asset_id,
            amount: self.amount,
            recipient: self.recipient@,
            source_chain: self.source_chain,
            kyc_level: self.kyc_level,
            metadata_uri: self.metadata_uri@,
        }
    }
}

impl CrossChainTransferDataView {
    /// The bytes that stand for the record in a message to a bridge.
    pub open spec fn payload(self) -> Seq<u8> {
        transfer_payload(
            self.asset_id,
            self.amount,
            self.recipient,
            self.source_chain,
            self.kyc_level.rank(),
            self.metadata_uri,
        )
    }
}

impl CrossChainTransferData {
    /// Encodes the record for a message to a bridge. The one record that
    /// cannot be encoded is one whose URI takes more bytes than a `u32` counts.
    pub fn encode(&self) -> (res: Result<Vec<u8>, ErrorCode>)
        ensures
            match res {
                Ok(bytes) => utf8_len(self@.metadata_uri) <= u32::MAX && bytes@
                    == self@.payload(),
                Err(e) => utf8_len(self@.metadata_uri) > u32::MAX && e
                    == ErrorCode::InvalidCrossChainOperation,
            },
    {
        match borsh_transfer_fields(
            self.asset_id,
            self.amount,
            &self.recipient,
            self.source_chain,
            self.kyc_level.index(),
            &self.metadata_uri,
        ) {
            Ok(bytes) => Ok(bytes),
            Err(_) => Err(ErrorCode::InvalidCrossChainOperation),
        }
    }
}

/// What the host has to carry out for units that leave this chain, in this
/// order: burn them, publish the event, and publish the message for the
/// bridge. Where the ledger refuses the burn, the host keeps none of what the
/// operation has changed.
#[derive(Clone, Debug, PartialEq, Eq)]
pub struct TransferInitiation {
    pub burn: TokenInstruction,
    pub initiated: CrossChainTransferInitiated,
    pub bridge_message: CrossChainEvent,
}

/// What the host has to carry out for units that arrive on this chain: mint
/// them, then publish the event. Where the ledger refuses, the host keeps
/// none of what the operation has changed.
#[derive(Clone, Debug, PartialEq, Eq)]
pub struct TransferCompletion {
    pub mint_to: TokenInstruction,
    pub completed: CrossChainTransferCompleted,
}

/// The first reason, if there is one, for which units may not leave this
/// chain.
pub open spec fn initiate_rejection(
    ctx: InitiateCrossChainTransfer,
    asset_id: u64,
    amount: u64,
) -> Option<ErrorCode> {
    if ctx.asset.asset_id != asset_id {
        Some(ErrorCode::AssetMismatch)
    } else if !ctx.asset.is_active {
        Some(ErrorCode::AssetInactive)
    } else if amount > ctx.asset.circulating_supply {
        Some(ErrorCode::InsufficientBalance)
    } else if utf8_len(ctx.asset@.metadata_uri) > u32::MAX {
        Some(ErrorCode::InvalidCrossChainOperation)
    } else {
        None
    }
}

/// The first reason, if there is one, for which units may not arrive on this
/// chain.
pub open spec fn complete_rejection(
    ctx: CompleteCrossChainTransfer,
    asset_id: u64,
    amount: u64,
) -> Option<ErrorCode> {
    if ctx.asset.asset_id != asset_id {
        Some(ErrorCode::AssetMismatch)
    } else if !ctx.asset.is_active {
        Some(ErrorCode::AssetInactive)
    } else if ctx.asset.circulating_supply + amount > ctx.asset.total_supply {
        Some(ErrorCode::ExceedsMaxSupply)
    } else {
        None
    }
}

/// Sends `amount` units of the asset to `target_recipient` on `target_chain`.
///
/// The request is rejected, and nothing changes, where the record is not the
/// one of `asset_id`, the asset is inactive, fewer than `amount` units are in
/// circulation, or the message cannot be encoded. Otherwise the units leave
/// the circulating supply, and the result holds the burn and the two things
/// to publish. The message goes to the registry's bridge, or to the zero
/// address where the registry has none.
pub fn initiate_cross_chain_transfer(
    ctx: &mut InitiateCrossChainTransfer,
    asset_id: u64,
    amount: u64,
    target_chain: u16,
    target_recipient: [u8; 32],
) -> (res: Result<TransferInitiation, ErrorCode>)
    ensures
        match res {
            Ok(out) => {
                &&& initiate_rejection(*old(ctx), asset_id, amount) is None
                &&& old(ctx).asset@.admits(SupplyOp::Send(amount))
                &&& final(ctx).asset@ == old(ctx).asset@.sent(amount)
                &&& old(ctx).asset@.wf() ==> final(ctx).asset@.wf()
                &&& *final(ctx) == (InitiateCrossChainTransfer {
                    asset: final(ctx).asset,
                    ..*old(ctx)
                })
                &&& out.burn@ == (TokenInstructionView::Burn {
                    mint: old(ctx).mint,
                    from: old(ctx).from_token_account,
                    authority: old(ctx).owner,
                    amount,
                })
                &&& out.initiated == (CrossChainTransferInitiated {
                    asset_id,
                    amount,
                    source_chain: HOME_CHAIN,
                    target_chain,
                    sender: old(ctx).owner,
                    recipient: target_recipient,
                    timestamp: old(ctx).unix_timestamp,
                })
                &&& out.bridge_message@ == (CrossChainEventView {
                    event_type: CrossChainEventType::TransferInitiated,
                    asset_id,
                    source_chain: HOME_CHAIN,
                    target_chain,
                    bridge_address: Pubkey::or_zero(old(ctx).registry.wormhole_bridge),
                    data: (CrossChainTransferDataView {
                        asset_id,
                        amount,
                        recipient: target_recipient@,
                        source_chain: HOME_CHAIN,
                        kyc_level: old(ctx).asset.kyc_level,
                        metadata_uri: old(ctx).asset@.metadata_uri,
                    }).payload(),
                })
            },
            Err(e) => {
                &&& initiate_rejection(*old(ctx), asset_id, amount) == Some(e)
                &&& *final(ctx) == *old(ctx)
            },
        },
{
    if ctx.asset.asset_id != asset_id {
        return Err(ErrorCode::AssetMismatch);
    }
    if !ctx.asset.is_active {
        return Err(ErrorCode::AssetInactive);
    }
    let remaining = match ctx.asset.circulating_supply.checked_sub(amount) {
        Some(n) => n,
        None => {
            return Err(ErrorCode::InsufficientBalance);
        },
    };
    let transfer_data = CrossChainTransferData {
        asset_id,
        amount,
        recipient: target_recipient,
        source_chain: HOME_CHAIN,
        kyc_level: ctx.asset.kyc_level,
        metadata_uri: ctx.asset.metadata_uri.clone(),
    };
    let data = match transfer_data.encode() {
        Ok(bytes) => bytes,
        Err(e) => {
            return Err(e);
        },
    };
    let burn = TokenInstruction::Burn {
        mint: ctx.mint,
        from: ctx.from_token_account,
        authority: ctx.owner,
        amount,
    };
    let initiated = CrossChainTransferInitiated {
        asset_id,
        amount,
        source_chain: HOME_CHAIN,
        target_chain,
        sender: ctx.owner,
        recipient: target_recipient,
        timestamp: ctx.unix_timestamp,
    };
    let bridge_message = CrossChainEvent {
        event_type: CrossChainEventType::TransferInitiated,
        asset_id,
        source_chain: HOME_CHAIN,
        target_chain,
        bridge_address: Pubkey::unwrap_or_default(ctx.registry.wormhole_bridge),
        data,
    };
    ctx.asset.circulating_supply = remaining;
    Ok(TransferInitiation { burn, initiated, bridge_message })
}

/// Receives `amount` units of the asset that were sent from `source_chain`.
/// The hash is the caller's, and is passed on to the event as it is: nothing
/// here tells whether a transfer has been completed before.
///
/// The request is rejected, and nothing changes, where the record is not the
/// one of `asset_id`, the asset is inactive, or the units would raise the
/// circulating supply over the asset's whole supply. Otherwise the units join
/// the circulating supply, and the result holds the mint and the event.
pub fn complete_cross_chain_transfer(
    ctx: &mut CompleteCrossChainTransfer,
    asset_id: u64,
    amount: u64,
    source_chain: u16,
    transfer_hash: [u8; 32],
) -> (res: Result<TransferCompletion, ErrorCode>)
    ensures
        match res {
            Ok(out) => {
                &&& complete_rejection(*old(ctx), asset_id, amount) is None
                &&& old(ctx).asset@.admits(SupplyOp::Receive(amount))
                &&& final(ctx).asset@ == old(ctx).asset@.received(amount)
                &&& old(ctx).asset@.wf() ==> final(ctx).asset@.wf()
                &&& *final(ctx) == (CompleteCrossChainTransfer {
                    asset: final(ctx).asset,
                    ..*old(ctx)
                })
                &&& out.mint_to@ == (TokenInstructionView::MintTo {
                    mint: old(ctx).mint,
                    to: old(ctx).to_token_account,
                    authority: asset_authority(asset_id, old(ctx).asset.bump),
                    amount,
                })
                &&& out.completed == (CrossChainTransferCompleted {
                    asset_id,
                    amount,
                    source_chain,
                    target_chain: HOME_CHAIN,
                    recipient: old(ctx).recipient,
                    transfer_hash,
                    timestamp: old(ctx).unix_timestamp,
                })
            },
            Err(e) => {
                &&& complete_rejection(*old(ctx), asset_id, amount) == Some(e)
                &&& *final(ctx) == *old(ctx)
            },
        },
{
    if ctx.asset.asset_id != asset_id {
        return Err(ErrorCode::AssetMismatch);
    }
    if !ctx.asset.is_active {
        return Err(ErrorCode::AssetInactive);
    }
    let raised = match ctx.asset.circulating_supply.checked_add(amount) {
        Some(n) => n,
        None => {
            return Err(ErrorCode::ExceedsMaxSupply);
        },
    };
    if raised > ctx.asset.total_supply {
        return Err(ErrorCode::ExceedsMaxSupply);
    }
    let mint_to = TokenInstruction::MintTo {
        mint: ctx.mint,
        to: ctx.to_token_account,
        authority: ctx.asset.signer_seeds(),
        amount,
    };
    let completed = CrossChainTransferCompleted {
        asset_id,
        amount,
        source_chain,
        target_chain: HOME_CHAIN,
        recipient: ctx.recipient,
        transfer_hash,
        timestamp: ctx.unix_timestamp,
    };
    ctx.asset.circulating_supply = raised;
    Ok(TransferCompletion { mint_to, completed })
}

/// Units that leave one chain and arrive on another are neither made nor
/// lost: where both halves of a transfer are accepted, the source has
/// `amount` units less in circulation, the destination has `amount` more, and
/// the two together have as many as before.
pub proof fn lemma_transfer_conserves_supply(
    source: InitiateCrossChainTransfer,
    destination: CompleteCrossChainTransfer,
    source_id: u64,
    destination_id: u64,
    amount: u64,
)
    requires
        initiate_rejection(source, source_id, amount) is None,
        complete_rejection(destination, destination_id, amount) is None,
    ensures
        source.asset@.sent(amount).circulating_supply == source.asset.circulating_supply - amount,
        destination.asset@.received(amount).circulating_supply
            == destination.asset.circulating_supply + amount,
        source.asset@.sent(amount).circulating_supply + destination.asset@.received(
            amount,
        ).circulating_supply == source.asset.circulating_supply
            + destination.asset.circulating_supply,
{
}

} // verus!
