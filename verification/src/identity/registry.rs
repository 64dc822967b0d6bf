//! The creation of the identity registry.

use vstd::prelude::*;
use vstd::utf8::{is_ascii_chars, is_ascii_chars_encode_utf8};
use crate::errors::IdentityError;
use crate::identity::accounts::InitializeIdentityRegistry;
use crate::identity::events::IdentityRegistryInitialized;
use crate::identity::records::{IdentityRegistry, IdentityRegistryView};
use crate::limits::MAX_CHAIN_LEN;
use crate::pubkey::Pubkey;
use crate::text::utf8_len;

verus! {

/// The chains that a new identity registry supports.
pub open spec fn default_chains() -> Seq<Seq<char>> {
    seq!["ethereum"@, "polygon"@, "bsc"@, "arbitrum"@, "optimism"@]
}

/// The identity registry as it is created: nothing counted, not paused, with
/// the authority as its first issuer and the default chains.
pub open spec fn initial_identity_registry(
    authority: Pubkey,
    cross_chain_bridge: Option<Pubkey>,
    bump: u8,
) -> IdentityRegistryView {
    IdentityRegistryView {
        authority,
        total_passports: 0,
        authorized_issuers: seq![authority],
        supported_chains: default_chains(),
        cross_chain_bridge,
        paused: false,
        bump,
    }
}

/// A new identity registry is within its bounds.
pub proof fn lemma_initial_identity_registry_wf(
    authority: Pubkey,
    cross_chain_bridge: Option<Pubkey>,
    bump: u8,
)
    ensures
        initial_identity_registry(authority, cross_chain_bridge, bump).wf(),
{
    reveal_strlit("ethereum");
    reveal_strlit("polygon");
    reveal_strlit("bsc");
    reveal_strlit("arbitrum");
    reveal_strlit("optimism");
    let chains = default_chains();
    assert forall|i: int| 0 <= i < chains.len() implies utf8_len(#[trigger] chains[i])
        <= MAX_CHAIN_LEN by {
        assert(is_ascii_chars(chains[i]));
        is_ascii_chars_encode_utf8(chains[i]);
    }
}

/// Creates the identity registry, governed by `authority`.
///
/// The request is rejected, and nothing changes, where the registry exists
/// already.
pub fn initialize_identity_registry(
    ctx: &mut InitializeIdentityRegistry,
    authority: Pubkey,
    cross_chain_bridge: Option<Pubkey>,
) -> (res: Result<IdentityRegistryInitialized, IdentityError>)
    ensures
        match res {
            Ok(event) => {
                &&& old(ctx).registry is None
                &&& final(ctx).registry matches Some(registry) && registry@
                    == initial_identity_registry(authority, cross_chain_bridge, old(ctx).bump)
                    && registry@.wf()
                &&& *final(ctx) == (InitializeIdentityRegistry {
                    registry: final(ctx).registry,
                    ..*old(ctx)
                })
                &&& event == (IdentityRegistryInitialized { authority, cross_chain_bridge })
            },
            Err(e) => {
                &&& old(ctx).registry is Some
                &&& e == IdentityError::AlreadyInitialized
                &&& *final(ctx) == *old(ctx)
            },
        },
{
    if ctx.registry.is_some() {
        return Err(IdentityError::AlreadyInitialized);
    }
    let mut authorized_issuers: Vec<Pubkey> = Vec::new();
    authorized_issuers.push(authority);
    let mut supported_chains: Vec<String> = Vec::new();
    supported_chains.push(String::from_str("ethereum"));
    supported_chains.push(String::from_str("polygon"));
    supported_chains.push(String::from_str("bsc"));
    supported_chains.push(String::from_str("arbitrum"));
    supported_chains.push(String::from_str("optimism"));
    let registry = IdentityRegistry {
        authority,
        total_passports: 0,
        authorized_issuers,
        supported_chains,
        cross_chain_bridge,
        paused: false,
        bump: ctx.bump,
    };
    proof {
        assert(registry.authorized_issuers@ =~= seq![authority]);
        assert(registry.supported_chains.deep_view() =~= default_chains());
        lemma_initial_identity_registry_wf(authority, cross_chain_bridge, ctx.bump);
    }
    ctx.registry = Some(registry);
    Ok(IdentityRegistryInitialized { authority, cross_chain_bridge })
}

} // verus!
