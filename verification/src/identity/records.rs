//! The records of the identity registry and what holds of them at all times.

use vstd::prelude::*;
use crate::levels::{InvestorTier, KYCLevel};
use crate::ledger::{passport_authority, passport_signer_seeds, SignerSeeds};
use crate::limits::{
    MAX_ADDRESS_LEN, MAX_AUTHORIZED_ISSUERS, MAX_CHAIN_LEN, MAX_CREDENTIALS, MAX_CREDENTIAL_LEN,
    MAX_CROSS_CHAIN_ADDRESSES, MAX_DID_LEN, MAX_METADATA_URI_LEN, MAX_SUPPORTED_CHAINS,
};
use crate::pubkey::Pubkey;
use crate::text::{fits, utf8_len};

verus! {

/// An address that the holder of a passport uses on another chain.
#[derive(Clone, Debug, PartialEq, Eq)]
pub struct CrossChainAddress {
    pub chain: String,
    pub address: String,
    pub verified: bool,
    pub timestamp: i64,
}

pub struct CrossChainAddressView {
    pub chain: Seq<char>,
    pub address: Seq<char>,
    pub verified: bool,
    pub timestamp: i64,
}

impl View for CrossChainAddress {
    type V = CrossChainAddressView;

    open spec fn view(&self) -> CrossChainAddressView {
        CrossChainAddressView {
            chain: self.chain@,
            address: self.address@,
            verified: self.verified,
            timestamp: self.timestamp,
        }
    }
}

impl DeepView for CrossChainAddress {
    type V = CrossChainAddressView;

    open spec fn deep_view(&self) -> CrossChainAddressView {
        self@
    }
}

impl CrossChainAddressView {
    /// Both names are present and within the size kept for them.
    pub open spec fn wf(self) -> bool {
        &&& fits(self.chain, MAX_CHAIN_LEN as nat)
        &&& fits(self.address, MAX_ADDRESS_LEN as nat)
    }
}

/// The identity record of one subject, bound to one unique token.
#[derive(Clone, Debug, PartialEq, Eq)]
pub struct IdentityPassport {
    pub mint: Pubkey,
    pub owner: Pubkey,
    pub did: String,
    pub kyc_level: KYCLevel,
    pub investor_tier: InvestorTier,
    pub reputation_score: u64,
    pub issuance_date: i64,
    pub expiration_date: i64,
    pub is_active: bool,
    pub metadata_uri: String,
    pub issuer: Pubkey,
    pub cross_chain_addresses: Vec<CrossChainAddress>,
    pub credentials: Vec<String>,
    pub bump: u8,
}

pub struct IdentityPassportView {
    pub mint: Pubkey,
    pub owner: Pubkey,
    pub did: Seq<char>,
    pub kyc_level: KYCLevel,
    pub investor_tier: InvestorTier,
    pub reputation_score: u64,
    pub issuance_date: i64,
    pub expiration_date: i64,
    pub is_active: bool,
    pub metadata_uri: Seq<char>,
    pub issuer: Pubkey,
    pub cross_chain_addresses: Seq<CrossChainAddressView>,
    pub credentials: Seq<Seq<char>>,
    pub bump: u8,
}

impl View for IdentityPassport {
    type V = IdentityPassportView;

    open spec fn view(&self) -> IdentityPassportView {
        IdentityPassportView {
            mint: self.mint,
            owner: self.owner,
            did: self.did@,
            kyc_level: self.kyc_level,
            investor_tier: self.investor_tier,
            reputation_score: self.reputation_score,
            issuance_date: self.issuance_date,
            expiration_date: self.expiration_date,
            is_active: self.is_active,
            metadata_uri: self.metadata_uri@,
            issuer: self.issuer,
            cross_chain_addresses: self.cross_chain_addresses.deep_view(),
            credentials: self.credentials.deep_view(),
            bump: self.bump,
        }
    }
}

impl IdentityPassportView {
    /// The record fits the space kept for it: the DID is present, every string
    /// is within its size, and neither list is longer than its bound.
    pub open spec fn wf(self) -> bool {
        &&& fits(self.did, MAX_DID_LEN as nat)
        &&& utf8_len(self.metadata_uri) <= MAX_METADATA_URI_LEN
        &&& self.cross_chain_addresses.len() <= MAX_CROSS_CHAIN_ADDRESSES
        &&& forall|i: int|
            0 <= i < self.cross_chain_addresses.len() ==> (
            #[trigger] self.cross_chain_addresses[i]).wf()
        &&& self.credentials.len() <= MAX_CREDENTIALS
        &&& forall|i: int|
            0 <= i < self.credentials.len() ==> utf8_len(#[trigger] self.credentials[i])
                <= MAX_CREDENTIAL_LEN
    }
}

impl IdentityPassport {
    /// What the passport signs with on its bound token.
    pub fn signer_seeds(&self) -> (seeds: SignerSeeds)
        ensures
            seeds@ == passport_authority(self@.did, self.bump),
    {
        passport_signer_seeds(&self.did, self.bump)
    }
}

/// The one record that says who may issue passports.
#[derive(Clone, Debug, PartialEq, Eq)]
pub struct IdentityRegistry {
    pub authority: Pubkey,
    pub total_passports: u64,
    pub authorized_issuers: Vec<Pubkey>,
    pub supported_chains: Vec<String>,
    pub cross_chain_bridge: Option<Pubkey>,
    pub paused: bool,
    pub bump: u8,
}

pub struct IdentityRegistryView {
    pub authority: Pubkey,
    pub total_passports: u64,
    pub authorized_issuers: Seq<Pubkey>,
    pub supported_chains: Seq<Seq<char>>,
    pub cross_chain_bridge: Option<Pubkey>,
    pub paused: bool,
    pub bump: u8,
}

impl View for IdentityRegistry {
    type V = IdentityRegistryView;

    open spec fn view(&self) -> IdentityRegistryView {
        IdentityRegistryView {
            authority: self.authority,
            total_passports: self.total_passports,
            authorized_issuers: self.authorized_issuers@,
            supported_chains: self.supported_chains.deep_view(),
            cross_chain_bridge: self.cross_chain_bridge,
            paused: self.paused,
            bump: self.bump,
        }
    }
}

impl IdentityRegistryView {
    /// Neither list is longer than its bound, and every chain name is within
    /// its size.
    pub open spec fn wf(self) -> bool {
        &&& self.authorized_issuers.len() <= MAX_AUTHORIZED_ISSUERS
        &&& self.supported_chains.len() <= MAX_SUPPORTED_CHAINS
        &&& forall|i: int|
            0 <= i < self.supported_chains.len() ==> utf8_len(#[trigger] self.supported_chains[i])
                <= MAX_CHAIN_LEN
    }

    /// Whether `who` may issue and maintain passports: the authority may, and
    /// so may every issuer on the list.
    pub open spec fn authorizes(self, who: Pubkey) -> bool {
        self.authorized_issuers.contains(who) || self.authority == who
    }
}

impl IdentityRegistry {
    pub fn authorizes(&self, who: &Pubkey) -> (r: bool)
        ensures
            r == self@.authorizes(*who),
    {
        who.is_in(&self.authorized_issuers) || self.authority == *who
    }
}

} // verus!
