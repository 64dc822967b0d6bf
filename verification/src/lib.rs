//! A registry of tokenized real-world assets with a supply that moves between
//! chains, and the identity passports that say who may hold them.
//!
//! Every operation is a function from the records it works on and its
//! arguments to the changed records and to what the host has to carry out:
//! requests to the token ledger and to the metadata service, and events to
//! publish. An operation that is rejected changes nothing.

pub mod accounts;
pub mod codec;
pub mod errors;
pub mod events;
pub mod identity;
pub mod ledger;
pub mod levels;
pub mod limits;
pub mod pubkey;
pub mod records;
pub mod registry;
pub mod supply;
pub mod text;
pub mod transfer;

pub use crate::accounts::{
    CompleteCrossChainTransfer, InitializeRegistry, InitiateCrossChainTransfer, MintRWATokens,
    RegisterRWAAsset, SetRegistryPause, UpdateAssetMetadata,
};
pub use crate::errors::{ErrorCode, IdentityError};
pub use crate::events::{
    AssetMetadataUpdated, CrossChainEvent, CrossChainEventType, CrossChainTransferCompleted,
    CrossChainTransferInitiated, RWAAssetRegistered, RWATokensMinted, RegistryInitialized,
    RegistryPauseChanged,
};
pub use crate::identity::accounts::{
    AddCredential, InitializeIdentityRegistry, IssueIdentityPassport, LinkCrossChainAddress,
    SyncCrossChain, UpdateIdentityPassport,
};
pub use crate::identity::events::{
    CredentialAdded, CrossChainAddressLinked, CrossChainSync, IdentityPassportIssued,
    IdentityPassportUpdated, IdentityRegistryInitialized,
};
pub use crate::identity::issue::{issue_identity_passport, PassportIssuance};
pub use crate::identity::passport::{
    add_credential, link_cross_chain_address, sync_cross_chain, update_identity_passport,
};
pub use crate::identity::records::{CrossChainAddress, IdentityPassport, IdentityRegistry};
pub use crate::identity::registry::initialize_identity_registry;
pub use crate::ledger::{DisplayRecord, EditionRecord, SignerSeeds, TokenInstruction};
pub use crate::levels::{AssetType, InvestorTier, KYCLevel};
pub use crate::pubkey::Pubkey;
pub use crate::records::{RWAAsset, Registry};
pub use crate::registry::{
    initialize_registry, mint_rwa_tokens, register_rwa_asset, set_registry_pause,
    update_asset_metadata, AssetRegistration, Minting,
};
pub use crate::transfer::{
    complete_cross_chain_transfer, initiate_cross_chain_transfer, CrossChainTransferData,
    TransferCompletion, TransferInitiation,
};
