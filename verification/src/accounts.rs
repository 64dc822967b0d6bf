//! What each operation on the asset registry works on: the records it may
//! change, the keys of those who take part, and what the host knows of the
//! transaction.

use vstd::prelude::*;
use crate::pubkey::Pubkey;
use crate::records::{RWAAsset, Registry};

verus! {

/// What the creation of the asset registry works on.
#[derive(Clone, Debug, PartialEq, Eq)]
pub struct InitializeRegistry {
    /// The place of the registry: empty until it has been created.
    pub registry: Option<Registry>,
    pub payer: Pubkey,
    /// The disambiguation byte of the registry's address.
    pub bump: u8,
}

/// What the registration of an asset works on.
#[derive(Clone, Debug, PartialEq, Eq)]
pub struct RegisterRWAAsset {
    /// The place of the asset that belongs to the asset id: empty until an
    /// asset has been registered under it.
    pub asset: Option<RWAAsset>,
    pub registry: Registry,
    /// Who signed the request.
    pub owner: Pubkey,
    /// The disambiguation byte of the asset's address.
    pub bump: u8,
    /// The time of the transaction, in seconds.
    pub unix_timestamp: i64,
}

/// What the minting of an asset's units works on.
#[derive(Clone, Debug, PartialEq, Eq)]
pub struct MintRWATokens {
    pub asset: RWAAsset,
    /// The token of the asset.
    pub mint: Pubkey,
    /// The recipient's account for that token.
    pub token_account: Pubkey,
    pub recipient: Pubkey,
    /// Who signed the request.
    pub owner: Pubkey,
    /// The time of the transaction, in seconds.
    pub unix_timestamp: i64,
}

/// What the sending of units to another chain works on.
#[derive(Clone, Debug, PartialEq, Eq)]
pub struct InitiateCrossChainTransfer {
    pub asset: RWAAsset,
    pub registry: Registry,
    /// The token of the asset.
    pub mint: Pubkey,
    /// The sender's account for that token.
    pub from_token_account: Pubkey,
    /// Who signed the request.
    pub owner: Pubkey,
    /// The time of the transaction, in seconds.
    pub unix_timestamp: i64,
}

/// What the receiving of units from another chain works on.
#[derive(Clone, Debug, PartialEq, Eq)]
pub struct CompleteCrossChainTransfer {
    pub asset: RWAAsset,
    /// The token of the asset.
    pub mint: Pubkey,
    /// The recipient's account for that token.
    pub to_token_account: Pubkey,
    pub recipient: Pubkey,
    /// Who signed the request.
    pub payer: Pubkey,
    /// The time of the transaction, in seconds.
    pub unix_timestamp: i64,
}

/// What an update of an asset's metadata works on.
#[derive(Clone, Debug, PartialEq, Eq)]
pub struct UpdateAssetMetadata {
    pub asset: RWAAsset,
    /// Who signed the request.
    pub owner: Pubkey,
    /// The time of the transaction, in seconds.
    pub unix_timestamp: i64,
}

/// What the pause switch works on.
#[derive(Clone, Debug, PartialEq, Eq)]
pub struct SetRegistryPause {
    pub registry: Registry,
    /// Who signed the request.
    pub authority: Pubkey,
    /// The time of the transaction, in seconds.
    pub unix_timestamp: i64,
}

} // verus!
