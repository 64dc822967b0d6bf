//! The encoding of a transfer record for a message to a bridge.

use vstd::prelude::*;
use vstd::bytes::{spec_u16_to_le_bytes, spec_u32_to_le_bytes, spec_u64_to_le_bytes};
use vstd::utf8::encode_utf8;
use crate::text::utf8_len;

verus! {

/// `std::io::Error`, which the encoder fails with. Nothing is read from it.
#[verifier::external_type_specification]
#[verifier::external_body]
pub struct ExIoError(std::io::Error);

/// The bytes that stand for a transfer record in a message to a bridge: each
/// integer in little-endian order, the recipient as it is, the level as one
/// byte, and the URI as its length in bytes (a little-endian `u32`) followed
/// by its UTF-8 encoding.
pub open spec fn transfer_payload(
    asset_id: u64,
    amount: u64,
    recipient: Seq<u8>,
    source_chain: u16,
    kyc_level: u8,
    metadata_uri: Seq<char>,
) -> Seq<u8> {
    spec_u64_to_le_bytes(asset_id) + spec_u64_to_le_bytes(amount) + recipient
        + spec_u16_to_le_bytes(source_chain) + seq![kyc_level] + spec_u32_to_le_bytes(
        utf8_len(metadata_uri) as u32,
    ) + encode_utf8(metadata_uri)
}

/// Calls `borsh::to_vec` on the tuple of the six fields. Trusted: borsh writes a
/// tuple as its members in order, an integer as its little-endian bytes, a byte
/// array as its bytes, and a string as its byte length in a `u32` followed by
/// its bytes; it fails only where that length does not fit in a `u32`.
#[verifier::external_body]
pub(crate) fn borsh_transfer_fields(
    asset_id: u64,
    amount: u64,
    recipient: &[u8; 32],
    source_chain: u16,
    kyc_level: u8,
    metadata_uri: &String,
) -> (res: Result<Vec<u8>, std::io::Error>)
    ensures
        res is Ok <==> utf8_len(metadata_uri@) <= u32::MAX,
        res matches Ok(bytes) ==> bytes@ == transfer_payload(
            asset_id,
            amount,
            recipient@,
            source_chain,
            kyc_level,
            metadata_uri@,
        ),
{
    borsh::to_vec(&(asset_id, amount, *recipient, source_chain, kyc_level, metadata_uri))
}

} // verus!
