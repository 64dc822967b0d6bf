//! The events of the identity registry, as the host publishes them.

use vstd::prelude::*;
use crate::identity::records::{CrossChainAddress, CrossChainAddressView};
use crate::levels::{InvestorTier, KYCLevel};
use crate::pubkey::Pubkey;

verus! {

/// The identity registry has been created.
#[derive(Clone, Copy, Debug, PartialEq, Eq)]
pub struct IdentityRegistryInitialized {
    pub authority: Pubkey,
    pub cross_chain_bridge: Option<Pubkey>,
}

/// A passport has been issued.
#[derive(Clone, Debug, PartialEq, Eq)]
pub struct IdentityPassportIssued {
    pub passport: Pubkey,
    pub mint: Pubkey,
    pub owner: Pubkey,
    pub did: String,
    pub kyc_level: KYCLevel,
    pub investor_tier: InvestorTier,
}

pub struct IdentityPassportIssuedView {
    pub passport: Pubkey,
    pub mint: Pubkey,
    pub owner: Pubkey,
    pub did: Seq<char>,
    pub kyc_level: KYCLevel,
    pub investor_tier: InvestorTier,
}

impl View for IdentityPassportIssued {
    type V = IdentityPassportIssuedView;

    open spec fn view(&self) -> IdentityPassportIssuedView {
        IdentityPassportIssuedView {
            passport: self.passport,
            mint: self.mint,
            owner: self.owner,
            did: self.did@,
            kyc_level: self.kyc_level,
            investor_tier: self.investor_tier,
        }
    }
}

/// A passport has been through an update, whatever the update changed.
#[derive(Clone, Copy, Debug, PartialEq, Eq)]
pub struct IdentityPassportUpdated {
    pub passport: Pubkey,
    pub kyc_level: KYCLevel,
    pub investor_tier: InvestorTier,
    pub reputation_score: u64,
}

/// The holder of a passport has linked an address on another chain.
#[derive(Clone, Debug, PartialEq, Eq)]
pub struct CrossChainAddressLinked {
    pub passport: Pubkey,
    pub chain: String,
    pub address: String,
}

pub struct CrossChainAddressLinkedView {
    pub passport: Pubkey,
    pub chain: Seq<char>,
    pub address: Seq<char>,
}

impl View for CrossChainAddressLinked {
    type V = CrossChainAddressLinkedView;

    open spec fn view(&self) -> CrossChainAddressLinkedView {
        CrossChainAddressLinkedView {
            passport: self.passport,
            chain: self.chain@,
            address: self.address@,
        }
    }
}

/// A credential has been added to a passport.
#[derive(Clone, Debug, PartialEq, Eq)]
pub struct CredentialAdded {
    pub passport: Pubkey,
    pub credential_id: String,
    pub credential_type: String,
}

pub struct CredentialAddedView {
    pub passport: Pubkey,
    pub credential_id: Seq<char>,
    pub credential_type: Seq<char>,
}

impl View for CredentialAdded {
    type V = CredentialAddedView;

    open spec fn view(&self) -> CredentialAddedView {
        CredentialAddedView {
            passport: self.passport,
            credential_id: self.credential_id@,
            credential_type: self.credential_type@,
        }
    }
}

/// The whole state of a passport, for a relayer to carry to another chain.
#[derive(Clone, Debug, PartialEq, Eq)]
pub struct CrossChainSync {
    pub passport: Pubkey,
    pub did: String,
    pub target_chain: String,
    pub target_contract: String,
    pub kyc_level: KYCLevel,
    pub investor_tier: InvestorTier,
    pub reputation_score: u64,
    pub cross_chain_addresses: Vec<CrossChainAddress>,
    pub credentials: Vec<String>,
}

pub struct CrossChainSyncView {
    pub passport: Pubkey,
    pub did: Seq<char>,
    pub target_chain: Seq<char>,
    pub target_contract: Seq<char>,
    pub kyc_level: KYCLevel,
    pub investor_tier: InvestorTier,
    pub reputation_score: u64,
    pub cross_chain_addresses: Seq<CrossChainAddressView>,
    pub credentials: Seq<Seq<char>>,
}

impl View for CrossChainSync {
    type V = CrossChainSyncView;

    open spec fn view(&self) -> CrossChainSyncView {
        CrossChainSyncView {
            passport: self.passport,
            did: self.did@,
            target_chain: self.target_chain@,
            target_contract: self.target_contract@,
            kyc_level: self.kyc_level,
            investor_tier: self.investor_tier,
            reputation_score: self.reputation_score,
            cross_chain_addresses: self.cross_chain_addresses.deep_view(),
            credentials: self.credentials.deep_view(),
        }
    }
}

} // verus!
