//! The records of the asset registry and what holds of them at all times.

use vstd::prelude::*;
use crate::ledger::{asset_authority, asset_signer_seeds, SignerSeeds};
use crate::levels::{AssetType, KYCLevel};
use crate::limits::MAX_METADATA_URI_LEN;
use crate::pubkey::Pubkey;
use crate::text::utf8_len;

verus! {

/// The one record of the asset registry: who governs it, how many assets it
/// has counted, where its bridges are, and whether it is paused.
#[derive(Clone, Copy, Debug, PartialEq, Eq)]
pub struct Registry {
    pub authority: Pubkey,
    pub total_assets: u64,
    pub wormhole_bridge: Option<Pubkey>,
    pub layerzero_endpoint: Option<Pubkey>,
    pub paused: bool,
    pub bump: u8,
}

/// One tokenized asset: what it is, who owns it, and how much of its supply
/// is in circulation on this chain.
#[derive(Clone, Debug, PartialEq, Eq)]
pub struct RWAAsset {
    pub asset_id: u64,
    pub asset_type: AssetType,
    pub owner: Pubkey,
    pub metadata_uri: String,
    pub kyc_level: KYCLevel,
    pub total_value: u64,
    pub total_supply: u64,
    pub circulating_supply: u64,
    pub is_active: bool,
    pub created_at: i64,
    pub chain_id: u16,
    pub bump: u8,
}

pub struct RWAAssetView {
    pub asset_id: u64,
    pub asset_type: AssetType,
    pub owner: Pubkey,
    pub metadata_uri: Seq<char>,
    pub kyc_level: KYCLevel,
    pub total_value: u64,
    pub total_supply: u64,
    pub circulating_supply: u64,
    pub is_active: bool,
    pub created_at: i64,
    pub chain_id: u16,
    pub bump: u8,
}

impl View for RWAAsset {
    type V = RWAAssetView;

    open spec fn view(&self) -> RWAAssetView {
        RWAAssetView {
            asset_id: self.asset_id,
            asset_type: self.asset_type,
            owner: self.owner,
            metadata_uri: self.metadata_uri@,
            kyc_level: self.kyc_level,
            total_value: self.total_value,
            total_supply: self.total_supply,
            circulating_supply: self.circulating_supply,
            is_active: self.is_active,
            created_at: self.created_at,
            chain_id: self.chain_id,
            bump: self.bump,
        }
    }
}

impl RWAAssetView {
    /// No more is in circulation than the asset's whole supply, and the URI
    /// is within its size.
    pub open spec fn wf(self) -> bool {
        &&& self.circulating_supply <= self.total_supply
        &&& utf8_len(self.metadata_uri) <= MAX_METADATA_URI_LEN
    }

    /// The asset after `amount` units have been minted on this chain.
    pub open spec fn minted(self, amount: u64) -> RWAAssetView {
        RWAAssetView { circulating_supply: (self.circulating_supply + amount) as u64, ..self }
    }

    /// The asset after `amount` units have left this chain for another.
    pub open spec fn sent(self, amount: u64) -> RWAAssetView {
        RWAAssetView { circulating_supply: (self.circulating_supply - amount) as u64, ..self }
    }

    /// The asset after `amount` units have arrived on this chain from another.
    pub open spec fn received(self, amount: u64) -> RWAAssetView {
        RWAAssetView { circulating_supply: (self.circulating_supply + amount) as u64, ..self }
    }
}

impl RWAAsset {
    /// What the asset signs with on its token.
    pub fn signer_seeds(&self) -> (seeds: SignerSeeds)
        ensures
            seeds@ == asset_authority(self.asset_id, self.bump),
    {
        asset_signer_seeds(self.asset_id, self.bump)
    }
}

} // verus!
