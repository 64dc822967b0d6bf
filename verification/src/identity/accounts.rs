//! What each operation on the identity registry works on.

use vstd::prelude::*;
use crate::identity::records::{IdentityPassport, IdentityRegistry};
use crate::pubkey::Pubkey;

verus! {

/// What the creation of the identity registry works on.
#[derive(Clone, Debug, PartialEq, Eq)]
pub struct InitializeIdentityRegistry {
    /// The place of the registry: empty until it has been created.
    pub registry: Option<IdentityRegistry>,
    pub payer: Pubkey,
    /// The disambiguation byte of the registry's address.
    pub bump: u8,
}

/// What the issuance of a passport works on.
#[derive(Clone, Debug, PartialEq, Eq)]
pub struct IssueIdentityPassport {
    /// The place of the passport that belongs to the DID: empty until a
    /// passport has been issued for it.
    pub identity_passport: Option<IdentityPassport>,
    /// The address of that place.
    pub passport_key: Pubkey,
    pub registry: IdentityRegistry,
    /// The unique token that the passport is bound to.
    pub mint: Pubkey,
    /// The recipient's account for that token.
    pub token_account: Pubkey,
    pub metadata: Pubkey,
    pub master_edition: Pubkey,
    pub recipient: Pubkey,
    pub payer: Pubkey,
    /// Who signed the request.
    pub issuer: Pubkey,
    /// The disambiguation byte of the passport's address.
    pub bump: u8,
    /// The time of the transaction, in seconds.
    pub unix_timestamp: i64,
}

/// What an update of a passport works on.
#[derive(Clone, Debug, PartialEq, Eq)]
pub struct UpdateIdentityPassport {
    pub identity_passport: IdentityPassport,
    pub passport_key: Pubkey,
    pub registry: IdentityRegistry,
    /// Who signed the request.
    pub issuer: Pubkey,
}

/// What the linking of an address on another chain works on.
#[derive(Clone, Debug, PartialEq, Eq)]
pub struct LinkCrossChainAddress {
    pub identity_passport: IdentityPassport,
    pub passport_key: Pubkey,
    /// Who signed the request.
    pub owner: Pubkey,
    /// The time of the transaction, in seconds.
    pub unix_timestamp: i64,
}

/// What the addition of a credential works on.
#[derive(Clone, Debug, PartialEq, Eq)]
pub struct AddCredential {
    pub identity_passport: IdentityPassport,
    pub passport_key: Pubkey,
    pub registry: IdentityRegistry,
    /// Who signed the request.
    pub issuer: Pubkey,
}

/// What a synchronisation with another chain works on.
#[derive(Clone, Debug, PartialEq, Eq)]
pub struct SyncCrossChain {
    pub identity_passport: IdentityPassport,
    pub passport_key: Pubkey,
    pub registry: IdentityRegistry,
    pub bridge_program: Pubkey,
    /// Who signed the request.
    pub authority: Pubkey,
}

} // verus!
