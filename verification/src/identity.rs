//! The identity registry and the passports that it issues.

pub mod accounts;
pub mod events;
pub mod issue;
pub mod passport;
pub mod records;
pub mod registry;

pub use crate::errors::IdentityError;
pub use crate::identity::accounts::{
    AddCredential, InitializeIdentityRegistry, IssueIdentityPassport, LinkCrossChainAddress,
    SyncCrossChain, UpdateIdentityPassport,
};
pub use crate::identity::events::{
    CredentialAdded, CrossChainAddressLinked, CrossChainSync, IdentityPassportIssued,
    IdentityPassportUpdated, IdentityRegistryInitialized,
};
pub use crate::identity::issue::issue_identity_passport;
pub use crate::identity::passport::{
    add_credential, link_cross_chain_address, sync_cross_chain, update_identity_passport,
};
pub use crate::identity::records::{CrossChainAddress, IdentityPassport, IdentityRegistry};
pub use crate::identity::registry::initialize_identity_registry;
pub use crate::levels::{InvestorTier, KYCLevel};
