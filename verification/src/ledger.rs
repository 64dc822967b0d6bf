//! Requests to the token ledger and to the metadata service, and what a
//! record signs them with.

use vstd::prelude::*;
use vstd::bytes::{spec_u64_to_le_bytes, u64_to_le_bytes};
use vstd::utf8::encode_utf8;
use crate::pubkey::Pubkey;

verus! {

/// What a record signs with: a fixed namespace, the record's key, and the
/// disambiguation byte that was stored when the record was created. The token
/// ledger derives the signing identity from the three.
#[derive(Clone, Debug, PartialEq, Eq)]
pub struct SignerSeeds {
    pub namespace: Vec<u8>,
    pub key: Vec<u8>,
    pub bump: u8,
}

pub struct SignerSeedsView {
    pub namespace: Seq<u8>,
    pub key: Seq<u8>,
    pub bump: u8,
}

impl View for SignerSeeds {
    type V = SignerSeedsView;

    open spec fn view(&self) -> SignerSeedsView {
        SignerSeedsView { namespace: self.namespace@, key: self.key@, bump: self.bump }
    }
}

/// The seeds of the asset record with the given id.
pub open spec fn asset_authority(asset_id: u64, bump: u8) -> SignerSeedsView {
    SignerSeedsView {
        namespace: encode_utf8("asset"@),
        key: spec_u64_to_le_bytes(asset_id),
        bump,
    }
}

/// The seeds of the passport record with the given DID.
pub open spec fn passport_authority(did: Seq<char>, bump: u8) -> SignerSeedsView {
    SignerSeedsView { namespace: encode_utf8("identity_passport"@), key: encode_utf8(did), bump }
}

pub fn asset_signer_seeds(asset_id: u64, bump: u8) -> (seeds: SignerSeeds)
    ensures
        seeds@ == asset_authority(asset_id, bump),
{
    SignerSeeds { namespace: "asset".as_bytes_vec(), key: u64_to_le_bytes(asset_id), bump }
}

pub fn passport_signer_seeds(did: &String, bump: u8) -> (seeds: SignerSeeds)
    ensures
        seeds@ == passport_authority(did@, bump),
{
    SignerSeeds {
        namespace: "identity_passport".as_bytes_vec(),
        key: did.as_str().as_bytes_vec(),
        bump,
    }
}

/// A request to the token ledger. The host performs it; where the ledger
/// refuses, the host drops whatever the operation has changed.
#[derive(Clone, Debug, PartialEq, Eq)]
pub enum TokenInstruction {
    /// Create `amount` units of `mint` in the account `to`, signed by a record.
    MintTo { mint: Pubkey, to: Pubkey, authority: SignerSeeds, amount: u64 },
    /// Destroy `amount` units of `mint` held in `from`, signed by its holder.
    Burn { mint: Pubkey, from: Pubkey, authority: Pubkey, amount: u64 },
}

pub enum TokenInstructionView {
    MintTo { mint: Pubkey, to: Pubkey, authority: SignerSeedsView, amount: u64 },
    Burn { mint: Pubkey, from: Pubkey, authority: Pubkey, amount: u64 },
}

impl View for TokenInstruction {
    type V = TokenInstructionView;

    open spec fn view(&self) -> TokenInstructionView {
        match *self {
            TokenInstruction::MintTo { mint, to, authority, amount } => {
                TokenInstructionView::MintTo { mint, to, authority: authority@, amount }
            },
            TokenInstruction::Burn { mint, from, authority, amount } => {
                TokenInstructionView::Burn { mint, from, authority, amount }
            },
        }
    }
}

/// The display record that the metadata service is asked to create for a
/// unique token.
#[derive(Clone, Debug, PartialEq, Eq)]
pub struct DisplayRecord {
    pub name: String,
    pub symbol: String,
    pub uri: String,
    pub seller_fee_basis_points: u16,
    pub update_authority_is_signer: bool,
    pub is_mutable: bool,
}

pub struct DisplayRecordView {
    pub name: Seq<char>,
    pub symbol: Seq<char>,
    pub uri: Seq<char>,
    pub seller_fee_basis_points: u16,
    pub update_authority_is_signer: bool,
    pub is_mutable: bool,
}

impl View for DisplayRecord {
    type V = DisplayRecordView;

    open spec fn view(&self) -> DisplayRecordView {
        DisplayRecordView {
            name: self.name@,
            symbol: self.symbol@,
            uri: self.uri@,
            seller_fee_basis_points: self.seller_fee_basis_points,
            update_authority_is_signer: self.update_authority_is_signer,
            is_mutable: self.is_mutable,
        }
    }
}

/// The edition record that the metadata service is asked to create: how many
/// further prints of the token may ever exist.
#[derive(Clone, Copy, Debug, PartialEq, Eq, Structural)]
pub struct EditionRecord {
    pub max_supply: Option<u64>,
}

} // verus!
