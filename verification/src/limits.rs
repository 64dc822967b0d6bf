//! The bounds of strings and lists, and other fixed values.

use vstd::prelude::*;

verus! {

/// Most bytes that a metadata URI may take.
pub const MAX_METADATA_URI_LEN: usize = 200;

/// Most bytes that a DID may take.
pub const MAX_DID_LEN: usize = 200;

/// Most bytes that the name of a chain may take.
pub const MAX_CHAIN_LEN: usize = 20;

/// Most bytes that an address on another chain may take.
pub const MAX_ADDRESS_LEN: usize = 100;

/// Most bytes that a credential id may take.
pub const MAX_CREDENTIAL_LEN: usize = 100;

/// Most addresses on other chains that one passport holds.
pub const MAX_CROSS_CHAIN_ADDRESSES: usize = 10;

/// Most credentials that one passport holds.
pub const MAX_CREDENTIALS: usize = 20;

/// Most issuers that an identity registry authorizes besides its authority.
pub const MAX_AUTHORIZED_ISSUERS: usize = 10;

/// Most chains that an identity registry supports.
pub const MAX_SUPPORTED_CHAINS: usize = 10;

/// The reputation score that a new passport starts with.
pub const STARTING_REPUTATION: u64 = 100;

/// The id of the chain that this registry lives on.
pub const HOME_CHAIN: u16 = 1;

} // verus!
