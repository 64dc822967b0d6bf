//! The events of the asset registry, as the host publishes them.

use vstd::prelude::*;
use crate::levels::{AssetType, KYCLevel};
use crate::pubkey::Pubkey;

verus! {

/// What a message to a bridge is about.
#[derive(Clone, Copy, Debug, PartialEq, Eq, Structural)]
pub enum CrossChainEventType {
    AssetRegistered,
    TransferInitiated,
    TransferCompleted,
    MetadataUpdated,
}

/// The asset registry has been created.
#[derive(Clone, Copy, Debug, PartialEq, Eq)]
pub struct RegistryInitialized {
    pub authority: Pubkey,
    pub wormhole_bridge: Option<Pubkey>,
    pub layerzero_endpoint: Option<Pubkey>,
}

/// An asset has been registered.
#[derive(Clone, Debug, PartialEq, Eq)]
pub struct RWAAssetRegistered {
    pub asset_id: u64,
    pub owner: Pubkey,
    pub asset_type: AssetType,
    pub metadata_uri: String,
    pub kyc_level: KYCLevel,
    pub total_value: u64,
    pub total_supply: u64,
    pub chain_id: u16,
    pub timestamp: i64,
}

pub struct RWAAssetRegisteredView {
    pub asset_id: u64,
    pub owner: Pubkey,
    pub asset_type: AssetType,
    pub metadata_uri: Seq<char>,
    pub kyc_level: KYCLevel,
    pub total_value: u64,
    pub total_supply: u64,
    pub chain_id: u16,
    pub timestamp: i64,
}

impl View for RWAAssetRegistered {
    type V = RWAAssetRegisteredView;

    open spec fn view(&self) -> RWAAssetRegisteredView {
        RWAAssetRegisteredView {
            asset_id: self.asset_id,
            owner: self.owner,
            asset_type: self.asset_type,
            metadata_uri: self.metadata_uri@,
            kyc_level: self.kyc_level,
            total_value: self.total_value,
            total_supply: self.total_supply,
            chain_id: self.chain_id,
            timestamp: self.timestamp,
        }
    }
}

/// Units of an asset have been minted.
#[derive(Clone, Copy, Debug, PartialEq, Eq)]
pub struct RWATokensMinted {
    pub asset_id: u64,
    pub recipient: Pubkey,
    pub amount: u64,
    pub timestamp: i64,
}

/// Units of an asset have left this chain for another.
#[derive(Clone, Copy, Debug, PartialEq, Eq)]
pub struct CrossChainTransferInitiated {
    pub asset_id: u64,
    pub amount: u64,
    pub source_chain: u16,
    pub target_chain: u16,
    pub sender: Pubkey,
    pub recipient: [u8; 32],
    pub timestamp: i64,
}

/// Units of an asset have arrived on this chain from another.
#[derive(Clone, Copy, Debug, PartialEq, Eq)]
pub struct CrossChainTransferCompleted {
    pub asset_id: u64,
    pub amount: u64,
    pub source_chain: u16,
    pub target_chain: u16,
    pub recipient: Pubkey,
    pub transfer_hash: [u8; 32],
    pub timestamp: i64,
}

/// A message for the relayer of a bridge.
#[derive(Clone, Debug, PartialEq, Eq)]
pub struct CrossChainEvent {
    pub event_type: CrossChainEventType,
    pub asset_id: u64,
    pub source_chain: u16,
    pub target_chain: u16,
    pub bridge_address: Pubkey,
    pub data: Vec<u8>,
}

pub struct CrossChainEventView {
    pub event_type: CrossChainEventType,
    pub asset_id: u64,
    pub source_chain: u16,
    pub target_chain: u16,
    pub bridge_address: Pubkey,
    pub data: Seq<u8>,
}

impl View for CrossChainEvent {
    type V = CrossChainEventView;

    open spec fn view(&self) -> CrossChainEventView {
        CrossChainEventView {
            event_type: self.event_type,
            asset_id: self.asset_id,
            source_chain: self.source_chain,
            target_chain: self.target_chain,
            bridge_address: self.bridge_address,
            data: self.data@,
        }
    }
}

/// The metadata of an asset has been replaced.
#[derive(Clone, Debug, PartialEq, Eq)]
pub struct AssetMetadataUpdated {
    pub asset_id: u64,
    pub new_metadata_uri: String,
    pub new_kyc_level: Option<KYCLevel>,
    pub timestamp: i64,
}

pub struct AssetMetadataUpdatedView {
    pub asset_id: u64,
    pub new_metadata_uri: Seq<char>,
    pub new_kyc_level: Option<KYCLevel>,
    pub timestamp: i64,
}

impl View for AssetMetadataUpdated {
    type V = AssetMetadataUpdatedView;

    open spec fn view(&self) -> AssetMetadataUpdatedView {
        AssetMetadataUpdatedView {
            asset_id: self.asset_id,
            new_metadata_uri: self.new_metadata_uri@,
            new_kyc_level: self.new_kyc_level,
            timestamp: self.timestamp,
        }
    }
}

/// The registry has been paused or released.
#[derive(Clone, Copy, Debug, PartialEq, Eq, Structural)]
pub struct RegistryPauseChanged {
    pub paused: bool,
    pub timestamp: i64,
}

} // verus!
