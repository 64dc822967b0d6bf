//! The operations of the asset registry: its creation, the registration of
//! assets, the minting of their units, updates of their metadata, and the
//! pause switch.

use vstd::prelude::*;
use vstd::bytes::{spec_u64_to_le_bytes, u64_to_le_bytes};
use crate::accounts::{
    InitializeRegistry, MintRWATokens, RegisterRWAAsset, SetRegistryPause, UpdateAssetMetadata,
};
use crate::errors::ErrorCode;
use crate::events::{
    AssetMetadataUpdated, AssetMetadataUpdatedView, CrossChainEvent, CrossChainEventType,
    CrossChainEventView, RWAAssetRegistered, RWAAssetRegisteredView, RWATokensMinted,
    RegistryInitialized, RegistryPauseChanged,
};
use crate::ledger::{asset_authority, TokenInstruction, TokenInstructionView};
use crate::levels::{AssetType, KYCLevel};
use crate::limits::{HOME_CHAIN, MAX_METADATA_URI_LEN};
use crate::pubkey::Pubkey;
use crate::records::{RWAAsset, RWAAssetView, Registry};
use crate::supply::SupplyOp;
use crate::text::{byte_len, utf8_len};

verus! {

/// The registry as it is created: nothing counted, not paused.
pub open spec fn initial_registry(
    authority: Pubkey,
    wormhole_bridge: Option<Pubkey>,
    layerzero_endpoint: Option<Pubkey>,
    bump: u8,
) -> Registry {
    Registry {
        authority,
        total_assets: 0,
        wormhole_bridge,
        layerzero_endpoint,
        paused: false,
        bump,
    }
}

/// Creates the asset registry, governed by `authority`.
///
/// The request is rejected, and nothing changes, where the registry exists
/// already.
pub fn initialize_registry(
    ctx: &mut InitializeRegistry,
    authority: Pubkey,
    wormhole_bridge: Option<Pubkey>,
    layerzero_endpoint: Option<Pubkey>,
) -> (res: Result<RegistryInitialized, ErrorCode>)
    ensures
        match res {
            Ok(event) => {
                &&& old(ctx).registry is None
                &&& *final(ctx) == (InitializeRegistry {
                    registry: Some(
                        initial_registry(
                            authority,
                            wormhole_bridge,
                            layerzero_endpoint,
                            old(ctx).bump,
                        ),
                    ),
                    ..*old(ctx)
                })
                &&& event == (RegistryInitialized {
                    authority,
                    wormhole_bridge,
                    layerzero_endpoint,
                })
            },
            Err(e) => {
                &&& old(ctx).registry is Some
                &&& e == ErrorCode::AlreadyInitialized
                &&& *final(ctx) == *old(ctx)
            },
        },
{
    if ctx.registry.is_some() {
        return Err(ErrorCode::AlreadyInitialized);
    }
    ctx.registry = Some(
        Registry {
            authority,
            total_assets: 0,
            wormhole_bridge,
            layerzero_endpoint,
            paused: false,
            bump: ctx.bump,
        },
    );
    Ok(RegistryInitialized { authority, wormhole_bridge, layerzero_endpoint })
}

/// What the host has to publish for a registered asset: the event, and then,
/// where the registry has a bridge, a message for that bridge.
#[derive(Clone, Debug, PartialEq, Eq)]
pub struct AssetRegistration {
    pub registered: RWAAssetRegistered,
    pub bridge_notice: Option<CrossChainEvent>,
}

/// The first reason, if there is one, for which the registration of an asset
/// is rejected.
pub open spec fn register_rejection(
    ctx: RegisterRWAAsset,
    metadata_uri: Seq<char>,
) -> Option<ErrorCode> {
    if ctx.registry.paused {
        Some(ErrorCode::RegistryPaused)
    } else if utf8_len(metadata_uri) > MAX_METADATA_URI_LEN {
        Some(ErrorCode::MetadataUriTooLong)
    } else if ctx.asset is Some {
        Some(ErrorCode::AlreadyInitialized)
    } else if ctx.registry.total_assets == u64::MAX {
        Some(ErrorCode::ArithmeticOverflow)
    } else {
        None
    }
}

/// The asset as it is registered: active, owned by the signer, with nothing in
/// circulation.
pub open spec fn registered_asset(
    ctx: RegisterRWAAsset,
    asset_id: u64,
    asset_type: AssetType,
    metadata_uri: Seq<char>,
    kyc_level: KYCLevel,
    total_value: u64,
    total_supply: u64,
    chain_id: u16,
) -> RWAAssetView {
    RWAAssetView {
        asset_id,
        asset_type,
        owner: ctx.owner,
        metadata_uri,
        kyc_level,
        total_value,
        total_supply,
        circulating_supply: 0,
        is_active: true,
        created_at: ctx.unix_timestamp,
        chain_id,
        bump: ctx.bump,
    }
}

/// What an accepted registration makes of its context: the asset stands in
/// its place, the registry has counted it, and the rest is as it was.
pub open spec fn registers(
    before: RegisterRWAAsset,
    after: RegisterRWAAsset,
    asset_id: u64,
    asset_type: AssetType,
    metadata_uri: Seq<char>,
    kyc_level: KYCLevel,
    total_value: u64,
    total_supply: u64,
    chain_id: u16,
) -> bool {
    &&& after.asset matches Some(asset) && asset@ == registered_asset(
        before,
        asset_id,
        asset_type,
        metadata_uri,
        kyc_level,
        total_value,
        total_supply,
        chain_id,
    )
    &&& after.registry == (Registry {
        total_assets: (before.registry.total_assets + 1) as u64,
        ..before.registry
    })
    &&& after == (RegisterRWAAsset { asset: after.asset, registry: after.registry, ..before })
}

/// Registers a new asset under `asset_id`, owned by the signer.
///
/// The request is rejected, and nothing changes, where the registry is paused,
/// the URI takes more than 200 bytes, an asset is registered under the id
/// already, or the registry's counter is at its end. Otherwise the asset is
/// created and the registry counts it.
pub fn register_rwa_asset(
    ctx: &mut RegisterRWAAsset,
    asset_id: u64,
    asset_type: AssetType,
    metadata_uri: String,
    kyc_level: KYCLevel,
    total_value: u64,
    total_supply: u64,
    chain_id: u16,
) -> (res: Result<AssetRegistration, ErrorCode>)
    ensures
        match res {
            Ok(out) => {
                &&& register_rejection(*old(ctx), metadata_uri@) is None
                &&& registers(
                    *old(ctx),
                    *final(ctx),
                    asset_id,
                    asset_type,
                    metadata_uri@,
                    kyc_level,
                    total_value,
                    total_supply,
                    chain_id,
                )
                &&& final(ctx).asset matches Some(asset) && asset@.wf()
                &&& out.registered@ == (RWAAssetRegisteredView {
                    asset_id,
                    owner: old(ctx).owner,
                    asset_type,
                    metadata_uri: metadata_uri@,
                    kyc_level,
                    total_value,
                    total_supply,
                    chain_id,
                    timestamp: old(ctx).unix_timestamp,
                })
                &&& match old(ctx).registry.wormhole_bridge {
                    Some(bridge) => out.bridge_notice matches Some(notice) && notice@ == (
                    CrossChainEventView {
                        event_type: CrossChainEventType::AssetRegistered,
                        asset_id,
                        source_chain: HOME_CHAIN,
                        target_chain: chain_id,
                        bridge_address: bridge,
                        data: spec_u64_to_le_bytes(asset_id),
                    }),
                    None => out.bridge_notice is None,
                }
            },
            Err(e) => {
                &&& register_rejection(*old(ctx), metadata_uri@) == Some(e)
                &&& *final(ctx) == *old(ctx)
            },
        },
        old(ctx).registry.paused ==> res == Err::<AssetRegistration, ErrorCode>(
            ErrorCode::RegistryPaused,
        ),
        old(ctx).asset is Some ==> res is Err,
{
    if ctx.registry.paused {
        return Err(ErrorCode::RegistryPaused);
    }
    if byte_len(&metadata_uri) > MAX_METADATA_URI_LEN {
        return Err(ErrorCode::MetadataUriTooLong);
    }
    if ctx.asset.is_some() {
        return Err(ErrorCode::AlreadyInitialized);
    }
    let total_assets = match ctx.registry.total_assets.checked_add(1) {
        Some(n) => n,
        None => {
            return Err(ErrorCode::ArithmeticOverflow);
        },
    };
    let registered = RWAAssetRegistered {
        asset_id,
        owner: ctx.owner,
        asset_type,
        metadata_uri: metadata_uri.clone(),
        kyc_level,
        total_value,
        total_supply,
        chain_id,
        timestamp: ctx.unix_timestamp,
    };
    let bridge_notice = match ctx.registry.wormhole_bridge {
        Some(bridge) => Some(
            CrossChainEvent {
                event_type: CrossChainEventType::AssetRegistered,
                asset_id,
                source_chain: HOME_CHAIN,
                target_chain: chain_id,
                bridge_address: bridge,
                data: u64_to_le_bytes(asset_id),
            },
        ),
        None => None,
    };
    ctx.asset = Some(
        RWAAsset {
            asset_id,
            asset_type,
            owner: ctx.owner,
            metadata_uri,
            kyc_level,
            total_value,
            total_supply,
            circulating_supply: 0,
            is_active: true,
            created_at: ctx.unix_timestamp,
            chain_id,
            bump: ctx.bump,
        },
    );
    ctx.registry.total_assets = total_assets;
    Ok(AssetRegistration { registered, bridge_notice })
}

/// What the host has to carry out for minted units: the mint on the token
/// ledger, then the event. Where the ledger refuses, the host keeps none of
/// what the operation has changed.
#[derive(Clone, Debug, PartialEq, Eq)]
pub struct Minting {
    pub mint_to: TokenInstruction,
    pub minted: RWATokensMinted,
}

/// The first reason, if there is one, for which a mint is rejected.
pub open spec fn mint_rejection(
    ctx: MintRWATokens,
    asset_id: u64,
    amount: u64,
) -> Option<ErrorCode> {
    if ctx.asset.asset_id != asset_id {
        Some(ErrorCode::AssetMismatch)
    } else if ctx.asset.owner != ctx.owner {
        Some(ErrorCode::Unauthorized)
    } else if !ctx.asset.is_active {
        Some(ErrorCode::AssetInactive)
    } else if ctx.asset.circulating_supply + amount > ctx.asset.total_supply {
        Some(ErrorCode::ExceedsMaxSupply)
    } else {
        None
    }
}

/// Mints `amount` units of the asset to the recipient.
///
/// The request is rejected, and nothing changes, where the record is not the
/// one of `asset_id`, the signer is not the asset's owner, the asset is
/// inactive, or the units would raise the circulating supply over the asset's
/// whole supply. Otherwise the units join the circulating supply, and the
/// result holds the mint, signed by the asset itself, and the event.
pub fn mint_rwa_tokens(
    ctx: &mut MintRWATokens,
    asset_id: u64,
    amount: u64,
) -> (res: Result<Minting, ErrorCode>)
    ensures
        match res {
            Ok(out) => {
                &&& mint_rejection(*old(ctx), asset_id, amount) is None
                &&& old(ctx).asset@.admits(SupplyOp::Mint(amount))
                &&& final(ctx).asset@ == old(ctx).asset@.minted(amount)
                &&& old(ctx).asset@.wf() ==> final(ctx).asset@.wf()
                &&& *final(ctx) == (MintRWATokens { asset: final(ctx).asset, ..*old(ctx) })
                &&& out.mint_to@ == (TokenInstructionView::MintTo {
                    mint: old(ctx).mint,
                    to: old(ctx).token_account,
                    authority: asset_authority(asset_id, old(ctx).asset.bump),
                    amount,
                })
                &&& out.minted == (RWATokensMinted {
                    asset_id,
                    recipient: old(ctx).recipient,
                    amount,
                    timestamp: old(ctx).unix_timestamp,
                })
            },
            Err(e) => {
                &&& mint_rejection(*old(ctx), asset_id, amount) == Some(e)
                &&& *final(ctx) == *old(ctx)
            },
        },
        old(ctx).asset.circulating_supply + amount > old(ctx).asset.total_supply ==> res is Err
            && final(ctx).asset.circulating_supply == old(ctx).asset.circulating_supply,
{
    if ctx.asset.asset_id != asset_id {
        return Err(ErrorCode::AssetMismatch);
    }
    if !(ctx.asset.owner == ctx.owner) {
        return Err(ErrorCode::Unauthorized);
    }
    if !ctx.asset.is_active {
        return Err(ErrorCode::AssetInactive);
    }
    let raised = match ctx.asset.circulating_supply.checked_add(amount) {
        Some(n) => n,
        None => {
            return Err(ErrorCode::ExceedsMaxSupply);
        },
    };
    if raised > ctx.asset.total_supply {
        return Err(ErrorCode::ExceedsMaxSupply);
    }
    let mint_to = TokenInstruction::MintTo {
        mint: ctx.mint,
        to: ctx.token_account,
        authority: ctx.asset.signer_seeds(),
        amount,
    };
    let minted = RWATokensMinted {
        asset_id,
        recipient: ctx.recipient,
        amount,
        timestamp: ctx.unix_timestamp,
    };
    ctx.asset.circulating_supply = raised;
    Ok(Minting { mint_to, minted })
}

/// The first reason, if there is one, for which an update of an asset's
/// metadata is rejected.
pub open spec fn update_metadata_rejection(
    ctx: UpdateAssetMetadata,
    asset_id: u64,
    new_metadata_uri: Seq<char>,
) -> Option<ErrorCode> {
    if ctx.asset.asset_id != asset_id {
        Some(ErrorCode::AssetMismatch)
    } else if ctx.asset.owner != ctx.owner {
        Some(ErrorCode::Unauthorized)
    } else if utf8_len(new_metadata_uri) > MAX_METADATA_URI_LEN {
        Some(ErrorCode::MetadataUriTooLong)
    } else {
        None
    }
}

/// Replaces the URI of the asset and, where a level is given, its level. A
/// paused registry does not stand in the way.
///
/// The request is rejected, and nothing changes, where the record is not the
/// one of `asset_id`, the signer is not the asset's owner, or the URI takes
/// more than 200 bytes.
pub fn update_asset_metadata(
    ctx: &mut UpdateAssetMetadata,
    asset_id: u64,
    new_metadata_uri: String,
    new_kyc_level: Option<KYCLevel>,
) -> (res: Result<AssetMetadataUpdated, ErrorCode>)
    ensures
        match res {
            Ok(event) => {
                &&& update_metadata_rejection(*old(ctx), asset_id, new_metadata_uri@) is None
                &&& final(ctx).asset@ == (RWAAssetView {
                    metadata_uri: new_metadata_uri@,
                    kyc_level: match new_kyc_level {
                        Some(level) => level,
                        None => old(ctx).asset.kyc_level,
                    },
                    ..old(ctx).asset@
                })
                &&& old(ctx).asset@.wf() ==> final(ctx).asset@.wf()
                &&& *final(ctx) == (UpdateAssetMetadata { asset: final(ctx).asset, ..*old(ctx) })
                &&& event@ == (AssetMetadataUpdatedView {
                    asset_id,
                    new_metadata_uri: new_metadata_uri@,
                    new_kyc_level,
                    timestamp: old(ctx).unix_timestamp,
                })
            },
            Err(e) => {
                &&& update_metadata_rejection(*old(ctx), asset_id, new_metadata_uri@) == Some(e)
                &&& *final(ctx) == *old(ctx)
            },
        },
{
    if ctx.asset.asset_id != asset_id {
        return Err(ErrorCode::AssetMismatch);
    }
    if !(ctx.asset.owner == ctx.owner) {
        return Err(ErrorCode::Unauthorized);
    }
    if byte_len(&new_metadata_uri) > MAX_METADATA_URI_LEN {
        return Err(ErrorCode::MetadataUriTooLong);
    }
    ctx.asset.metadata_uri = new_metadata_uri.clone();
    if let Some(level) = new_kyc_level {
        ctx.asset.kyc_level = level;
    }
    Ok(
        AssetMetadataUpdated {
            asset_id,
            new_metadata_uri,
            new_kyc_level,
            timestamp: ctx.unix_timestamp,
        },
    )
}

/// Pauses the registry or releases it. This is the one change that a paused
/// registry accepts.
///
/// The request is rejected, and nothing changes, where the signer is not the
/// registry's authority.
pub fn set_registry_pause(
    ctx: &mut SetRegistryPause,
    paused: bool,
) -> (res: Result<RegistryPauseChanged, ErrorCode>)
    ensures
        match res {
            Ok(event) => {
                &&& old(ctx).authority == old(ctx).registry.authority
                &&& *final(ctx) == (SetRegistryPause {
                    registry: Registry { paused, ..old(ctx).registry },
                    ..*old(ctx)
                })
                &&& event == (RegistryPauseChanged { paused, timestamp: old(ctx).unix_timestamp })
            },
            Err(e) => {
                &&& old(ctx).authority != old(ctx).registry.authority
                &&& e == ErrorCode::Unauthorized
                &&& *final(ctx) == *old(ctx)
            },
        },
{
    if !(ctx.registry.authority == ctx.authority) {
        return Err(ErrorCode::Unauthorized);
    }
    ctx.registry.paused = paused;
    Ok(RegistryPauseChanged { paused, timestamp: ctx.unix_timestamp })
}

/// An asset id is used once: where a registration has been accepted, every
/// further registration in the context that it left is rejected.
pub proof fn lemma_asset_id_is_used_once(
    before: RegisterRWAAsset,
    after: RegisterRWAAsset,
    asset_id: u64,
    asset_type: AssetType,
    metadata_uri: Seq<char>,
    kyc_level: KYCLevel,
    total_value: u64,
    total_supply: u64,
    chain_id: u16,
    next_uri: Seq<char>,
)
    requires
        registers(
            before,
            after,
            asset_id,
            asset_type,
            metadata_uri,
            kyc_level,
            total_value,
            total_supply,
            chain_id,
        ),
    ensures
        register_rejection(after, next_uri) is Some,
{
}

/// A paused registry registers nothing: the request is rejected as paused,
/// whatever else holds of it.
pub proof fn lemma_paused_registry_registers_nothing(
    ctx: RegisterRWAAsset,
    metadata_uri: Seq<char>,
)
    requires
        ctx.registry.paused,
    ensures
        register_rejection(ctx, metadata_uri) == Some(ErrorCode::RegistryPaused),
{
}

/// A mint that would raise the circulating supply over the whole supply is
/// rejected.
pub proof fn lemma_mint_over_supply_is_rejected(ctx: MintRWATokens, asset_id: u64, amount: u64)
    requires
        ctx.asset.circulating_supply + amount > ctx.asset.total_supply,
    ensures
        mint_rejection(ctx, asset_id, amount) is Some,
{
}

} // verus!
