//! The operations on an issued passport: updates, linked addresses,
//! credentials, and synchronisation with another chain.

use vstd::prelude::*;
use crate::errors::IdentityError;
use crate::identity::accounts::{
    AddCredential, LinkCrossChainAddress, SyncCrossChain, UpdateIdentityPassport,
};
use crate::identity::events::{
    CredentialAdded, CredentialAddedView, CrossChainAddressLinked, CrossChainAddressLinkedView,
    CrossChainSync, CrossChainSyncView, IdentityPassportUpdated,
};
use crate::identity::records::{CrossChainAddress, CrossChainAddressView, IdentityPassportView};
use crate::levels::{InvestorTier, KYCLevel};
use crate::limits::{
    MAX_ADDRESS_LEN, MAX_CHAIN_LEN, MAX_CREDENTIALS, MAX_CREDENTIAL_LEN,
    MAX_CROSS_CHAIN_ADDRESSES, MAX_METADATA_URI_LEN,
};
use crate::text::{byte_len, fits, utf8_len};

verus! {

/// The new value where one is given, the old one where none is.
pub open spec fn or_keep<T>(new: Option<T>, old: T) -> T {
    match new {
        Some(value) => value,
        None => old,
    }
}

/// The URI of an update, as the characters it holds.
pub open spec fn uri_view(uri: Option<String>) -> Option<Seq<char>> {
    match uri {
        Some(text) => Some(text@),
        None => None,
    }
}

/// The first reason, if there is one, for which an update of a passport is
/// rejected.
pub open spec fn update_rejection(
    ctx: UpdateIdentityPassport,
    new_metadata_uri: Option<Seq<char>>,
) -> Option<IdentityError> {
    if !ctx.registry@.authorizes(ctx.issuer) {
        Some(IdentityError::UnauthorizedIssuer)
    } else if ctx.registry.paused {
        Some(IdentityError::RegistryPaused)
    } else if new_metadata_uri matches Some(uri) && utf8_len(uri) > MAX_METADATA_URI_LEN {
        Some(IdentityError::MetadataUriTooLong)
    } else {
        None
    }
}

/// The passport after an update: each field holds the new value where one is
/// given, and is as it was where none is.
pub open spec fn updated_passport(
    passport: IdentityPassportView,
    new_kyc_level: Option<KYCLevel>,
    new_investor_tier: Option<InvestorTier>,
    new_reputation_score: Option<u64>,
    new_metadata_uri: Option<Seq<char>>,
) -> IdentityPassportView {
    IdentityPassportView {
        kyc_level: or_keep(new_kyc_level, passport.kyc_level),
        investor_tier: or_keep(new_investor_tier, passport.investor_tier),
        reputation_score: or_keep(new_reputation_score, passport.reputation_score),
        metadata_uri: or_keep(new_metadata_uri, passport.metadata_uri),
        ..passport
    }
}

/// Updates the level, the tier, the reputation and the URI of a passport,
/// each where a new value is given. The event is returned whether or not
/// anything was given.
///
/// The request is rejected, and nothing changes, where the signer is neither
/// the registry's authority nor one of its issuers, the registry is paused, or
/// the new URI takes more than 200 bytes.
pub fn update_identity_passport(
    ctx: &mut UpdateIdentityPassport,
    new_kyc_level: Option<KYCLevel>,
    new_investor_tier: Option<InvestorTier>,
    new_reputation_score: Option<u64>,
    new_metadata_uri: Option<String>,
) -> (res: Result<IdentityPassportUpdated, IdentityError>)
    ensures
        match res {
            Ok(event) => {
                &&& update_rejection(*old(ctx), uri_view(new_metadata_uri)) is None
                &&& final(ctx).identity_passport@ == updated_passport(
                    old(ctx).identity_passport@,
                    new_kyc_level,
                    new_investor_tier,
                    new_reputation_score,
                    uri_view(new_metadata_uri),
                )
                &&& old(ctx).identity_passport@.wf() ==> final(ctx).identity_passport@.wf()
                &&& *final(ctx) == (UpdateIdentityPassport {
                    identity_passport: final(ctx).identity_passport,
                    ..*old(ctx)
                })
                &&& new_kyc_level is None && new_investor_tier is None && new_reputation_score
                    is None && new_metadata_uri is None ==> *final(ctx) == *old(ctx)
                &&& event == (IdentityPassportUpdated {
                    passport: old(ctx).passport_key,
                    kyc_level: or_keep(new_kyc_level, old(ctx).identity_passport.kyc_level),
                    investor_tier: or_keep(
                        new_investor_tier,
                        old(ctx).identity_passport.investor_tier,
                    ),
                    reputation_score: or_keep(
                        new_reputation_score,
                        old(ctx).identity_passport.reputation_score,
                    ),
                })
            },
            Err(e) => {
                &&& update_rejection(*old(ctx), uri_view(new_metadata_uri)) == Some(e)
                &&& *final(ctx) == *old(ctx)
            },
        },
        old(ctx).registry.paused && old(ctx).registry@.authorizes(old(ctx).issuer) ==> res
            == Err::<IdentityPassportUpdated, IdentityError>(IdentityError::RegistryPaused),
        new_kyc_level is None && new_investor_tier is None && new_reputation_score is None
            && new_metadata_uri is None && !old(ctx).registry.paused && old(
            ctx,
        ).registry@.authorizes(old(ctx).issuer) ==> res is Ok && *final(ctx) == *old(ctx),
{
    if !ctx.registry.authorizes(&ctx.issuer) {
        return Err(IdentityError::UnauthorizedIssuer);
    }
    if ctx.registry.paused {
        return Err(IdentityError::RegistryPaused);
    }
    if let Some(uri) = &new_metadata_uri {
        if byte_len(uri) > MAX_METADATA_URI_LEN {
            return Err(IdentityError::MetadataUriTooLong);
        }
    }
    if let Some(kyc_level) = new_kyc_level {
        ctx.identity_passport.kyc_level = kyc_level;
    }
    if let Some(investor_tier) = new_investor_tier {
        ctx.identity_passport.investor_tier = investor_tier;
    }
    if let Some(reputation_score) = new_reputation_score {
        ctx.identity_passport.reputation_score = reputation_score;
    }
    if let Some(metadata_uri) = new_metadata_uri {
        ctx.identity_passport.metadata_uri = metadata_uri;
    }
    Ok(
        IdentityPassportUpdated {
            passport: ctx.passport_key,
            kyc_level: ctx.identity_passport.kyc_level,
            investor_tier: ctx.identity_passport.investor_tier,
            reputation_score: ctx.identity_passport.reputation_score,
        },
    )
}

/// The first reason, if there is one, for which an address on another chain
/// is not linked.
pub open spec fn link_rejection(
    ctx: LinkCrossChainAddress,
    chain: Seq<char>,
    address: Seq<char>,
) -> Option<IdentityError> {
    if ctx.identity_passport.owner != ctx.owner {
        Some(IdentityError::Unauthorized)
    } else if !ctx.identity_passport.is_active {
        Some(IdentityError::PassportInactive)
    } else if !fits(chain, MAX_CHAIN_LEN as nat) {
        Some(IdentityError::InvalidChain)
    } else if !fits(address, MAX_ADDRESS_LEN as nat) {
        Some(IdentityError::InvalidAddress)
    } else if ctx.identity_passport@.cross_chain_addresses.len() >= MAX_CROSS_CHAIN_ADDRESSES {
        Some(IdentityError::CapacityExceeded)
    } else {
        None
    }
}

/// Links an address that the holder uses on another chain. The signature is
/// taken as it comes and is not examined: the address is recorded as
/// verified whatever the signature holds.
///
/// The request is rejected, and nothing changes, where the signer is not the
/// passport's owner, the passport is inactive, the chain or the address is
/// empty or too long, or the passport holds ten addresses already.
#[allow(unused_variables)]
pub fn link_cross_chain_address(
    ctx: &mut LinkCrossChainAddress,
    chain: String,
    address: String,
    signature: Vec<u8>,
) -> (res: Result<CrossChainAddressLinked, IdentityError>)
    ensures
        match res {
            Ok(event) => {
                &&& link_rejection(*old(ctx), chain@, address@) is None
                &&& final(ctx).identity_passport@ == (IdentityPassportView {
                    cross_chain_addresses: old(ctx).identity_passport@.cross_chain_addresses.push(
                        CrossChainAddressView {
                            chain: chain@,
                            address: address@,
                            verified: true,
                            timestamp: old(ctx).unix_timestamp,
                        },
                    ),
                    ..old(ctx).identity_passport@
                })
                &&& old(ctx).identity_passport@.wf() ==> final(ctx).identity_passport@.wf()
                &&& *final(ctx) == (LinkCrossChainAddress {
                    identity_passport: final(ctx).identity_passport,
                    ..*old(ctx)
                })
                &&& event@ == (CrossChainAddressLinkedView {
                    passport: old(ctx).passport_key,
                    chain: chain@,
                    address: address@,
                })
            },
            Err(e) => {
                &&& link_rejection(*old(ctx), chain@, address@) == Some(e)
                &&& *final(ctx) == *old(ctx)
            },
        },
        old(ctx).identity_passport.cross_chain_addresses.len() >= MAX_CROSS_CHAIN_ADDRESSES
            ==> res is Err,
{
    if !(ctx.identity_passport.owner == ctx.owner) {
        return Err(IdentityError::Unauthorized);
    }
    if !ctx.identity_passport.is_active {
        return Err(IdentityError::PassportInactive);
    }
    if chain.as_str().is_empty() || byte_len(&chain) > MAX_CHAIN_LEN {
        return Err(IdentityError::InvalidChain);
    }
    if address.as_str().is_empty() || byte_len(&address) > MAX_ADDRESS_LEN {
        return Err(IdentityError::InvalidAddress);
    }
    if ctx.identity_passport.cross_chain_addresses.len() >= MAX_CROSS_CHAIN_ADDRESSES {
        return Err(IdentityError::CapacityExceeded);
    }
    let event = CrossChainAddressLinked {
        passport: ctx.passport_key,
        chain: chain.clone(),
        address: address.clone(),
    };
    let linked = CrossChainAddress {
        chain,
        address,
        verified: true,
        timestamp: ctx.unix_timestamp,
    };
    ctx.identity_passport.cross_chain_addresses.push(linked);
    assert(ctx.identity_passport.cross_chain_addresses.deep_view() =~= old(
        ctx,
    ).identity_passport.cross_chain_addresses.deep_view().push(linked@));
    Ok(event)
}

/// The first reason, if there is one, for which a credential is not added.
pub open spec fn add_credential_rejection(
    ctx: AddCredential,
    credential_id: Seq<char>,
) -> Option<IdentityError> {
    if !ctx.registry@.authorizes(ctx.issuer) {
        Some(IdentityError::UnauthorizedIssuer)
    } else if ctx.registry.paused {
        Some(IdentityError::RegistryPaused)
    } else if !ctx.identity_passport.is_active {
        Some(IdentityError::PassportInactive)
    } else if utf8_len(credential_id) > MAX_CREDENTIAL_LEN {
        Some(IdentityError::InvalidCredential)
    } else if ctx.identity_passport@.credentials.len() >= MAX_CREDENTIALS {
        Some(IdentityError::CapacityExceeded)
    } else {
        None
    }
}

/// Adds a credential to a passport, behind those it holds. A credential that
/// the passport holds already is added once more.
///
/// The request is rejected, and nothing changes, where the signer is neither
/// the registry's authority nor one of its issuers, the registry is paused,
/// the passport is inactive, the id takes more than 100 bytes, or the
/// passport holds twenty credentials already.
pub fn add_credential(
    ctx: &mut AddCredential,
    credential_id: String,
    credential_type: String,
) -> (res: Result<CredentialAdded, IdentityError>)
    ensures
        match res {
            Ok(event) => {
                &&& add_credential_rejection(*old(ctx), credential_id@) is None
                &&& final(ctx).identity_passport@ == (IdentityPassportView {
                    credentials: old(ctx).identity_passport@.credentials.push(credential_id@),
                    ..old(ctx).identity_passport@
                })
                &&& old(ctx).identity_passport@.wf() ==> final(ctx).identity_passport@.wf()
                &&& *final(ctx) == (AddCredential {
                    identity_passport: final(ctx).identity_passport,
                    ..*old(ctx)
                })
                &&& event@ == (CredentialAddedView {
                    passport: old(ctx).passport_key,
                    credential_id: credential_id@,
                    credential_type: credential_type@,
                })
            },
            Err(e) => {
                &&& add_credential_rejection(*old(ctx), credential_id@) == Some(e)
                &&& *final(ctx) == *old(ctx)
            },
        },
        old(ctx).registry.paused && old(ctx).registry@.authorizes(old(ctx).issuer) ==> res
            == Err::<CredentialAdded, IdentityError>(IdentityError::RegistryPaused),
        old(ctx).identity_passport.credentials.len() >= MAX_CREDENTIALS ==> res is Err,
{
    if !ctx.registry.authorizes(&ctx.issuer) {
        return Err(IdentityError::UnauthorizedIssuer);
    }
    if ctx.registry.paused {
        return Err(IdentityError::RegistryPaused);
    }
    if !ctx.identity_passport.is_active {
        return Err(IdentityError::PassportInactive);
    }
    if byte_len(&credential_id) > MAX_CREDENTIAL_LEN {
        return Err(IdentityError::InvalidCredential);
    }
    if ctx.identity_passport.credentials.len() >= MAX_CREDENTIALS {
        return Err(IdentityError::CapacityExceeded);
    }
    ctx.identity_passport.credentials.push(credential_id.clone());
    assert(ctx.identity_passport.credentials.deep_view() =~= old(
        ctx,
    ).identity_passport.credentials.deep_view().push(credential_id@));
    Ok(CredentialAdded { passport: ctx.passport_key, credential_id, credential_type })
}

/// A copy of the strings of `list`, in their order.
fn copy_strings(list: &Vec<String>) -> (copy: Vec<String>)
    ensures
        copy.deep_view() == list.deep_view(),
{
    let mut copy: Vec<String> = Vec::new();
    let mut i: usize = 0;
    while i < list.len()
        invariant
            i <= list.len(),
            copy.len() == i,
            forall|j: int| 0 <= j < i ==> copy@[j]@ == list@[j]@,
        decreases list.len() - i,
    {
        copy.push(list[i].clone());
        i += 1;
    }
    assert(copy.deep_view() =~= list.deep_view());
    copy
}

/// A copy of the addresses of `list`, in their order.
fn copy_addresses(list: &Vec<CrossChainAddress>) -> (copy: Vec<CrossChainAddress>)
    ensures
        copy.deep_view() == list.deep_view(),
{
    let mut copy: Vec<CrossChainAddress> = Vec::new();
    let mut i: usize = 0;
    while i < list.len()
        invariant
            i <= list.len(),
            copy.len() == i,
            forall|j: int| 0 <= j < i ==> copy@[j]@ == list@[j]@,
        decreases list.len() - i,
    {
        let entry = &list[i];
        copy.push(
            CrossChainAddress {
                chain: entry.chain.clone(),
                address: entry.address.clone(),
                verified: entry.verified,
                timestamp: entry.timestamp,
            },
        );
        i += 1;
    }
    assert(copy.deep_view() =~= list.deep_view());
    copy
}

/// The first reason, if there is one, for which a passport is not
/// synchronised.
pub open spec fn sync_rejection(ctx: SyncCrossChain) -> Option<IdentityError> {
    if ctx.registry.authority != ctx.authority {
        Some(IdentityError::Unauthorized)
    } else if ctx.registry.paused {
        Some(IdentityError::RegistryPaused)
    } else if !ctx.identity_passport.is_active {
        Some(IdentityError::PassportInactive)
    } else {
        None
    }
}

/// Takes the whole state of a passport for a relayer to carry to
/// `target_contract` on `target_chain`. Nothing is changed.
///
/// The request is rejected where the signer is not the registry's authority,
/// the registry is paused, or the passport is inactive.
pub fn sync_cross_chain(
    ctx: &SyncCrossChain,
    target_chain: String,
    target_contract: String,
) -> (res: Result<CrossChainSync, IdentityError>)
    ensures
        match res {
            Ok(event) => {
                &&& sync_rejection(*ctx) is None
                &&& event@ == (CrossChainSyncView {
                    passport: ctx.passport_key,
                    did: ctx.identity_passport@.did,
                    target_chain: target_chain@,
                    target_contract: target_contract@,
                    kyc_level: ctx.identity_passport.kyc_level,
                    investor_tier: ctx.identity_passport.investor_tier,
                    reputation_score: ctx.identity_passport.reputation_score,
                    cross_chain_addresses: ctx.identity_passport@.cross_chain_addresses,
                    credentials: ctx.identity_passport@.credentials,
                })
            },
            Err(e) => sync_rejection(*ctx) == Some(e),
        },
        ctx.registry.paused && ctx.registry.authority == ctx.authority ==> res == Err::<
            CrossChainSync,
            IdentityError,
        >(IdentityError::RegistryPaused),
{
    if !(ctx.registry.authority == ctx.authority) {
        return Err(IdentityError::Unauthorized);
    }
    if ctx.registry.paused {
        return Err(IdentityError::RegistryPaused);
    }
    if !ctx.identity_passport.is_active {
        return Err(IdentityError::PassportInactive);
    }
    Ok(
        CrossChainSync {
            passport: ctx.passport_key,
            did: ctx.identity_passport.did.clone(),
            target_chain,
            target_contract,
            kyc_level: ctx.identity_passport.kyc_level,
            investor_tier: ctx.identity_passport.investor_tier,
            reputation_score: ctx.identity_passport.reputation_score,
            cross_chain_addresses: copy_addresses(&ctx.identity_passport.cross_chain_addresses),
            credentials: copy_strings(&ctx.identity_passport.credentials),
        },
    )
}

/// A paused registry updates no passport: the request of a signer who may
/// issue is rejected as paused, whatever else holds of it.
pub proof fn lemma_paused_registry_updates_no_passport(
    ctx: UpdateIdentityPassport,
    new_metadata_uri: Option<Seq<char>>,
)
    requires
        ctx.registry.paused,
        ctx.registry@.authorizes(ctx.issuer),
    ensures
        update_rejection(ctx, new_metadata_uri) == Some(IdentityError::RegistryPaused),
{
}

/// A paused registry adds no credential: the request of a signer who may
/// issue is rejected as paused, whatever else holds of it.
pub proof fn lemma_paused_registry_adds_no_credential(ctx: AddCredential, credential_id: Seq<char>)
    requires
        ctx.registry.paused,
        ctx.registry@.authorizes(ctx.issuer),
    ensures
        add_credential_rejection(ctx, credential_id) == Some(IdentityError::RegistryPaused),
{
}

/// A paused registry synchronises no passport: the request of its authority
/// is rejected as paused, whatever else holds of it.
pub proof fn lemma_paused_registry_synchronises_no_passport(ctx: SyncCrossChain)
    requires
        ctx.registry.paused,
        ctx.registry.authority == ctx.authority,
    ensures
        sync_rejection(ctx) == Some(IdentityError::RegistryPaused),
{
}

/// An update that gives no value is accepted from a signer with the right to
/// it on a registry that is not paused, and leaves every field of the
/// passport as it was.
pub proof fn lemma_update_without_values_changes_nothing(ctx: UpdateIdentityPassport)
    requires
        ctx.registry@.authorizes(ctx.issuer),
        !ctx.registry.paused,
    ensures
        update_rejection(ctx, None) is None,
        updated_passport(ctx.identity_passport@, None, None, None, None) == ctx.identity_passport@,
{
}

/// A passport with twenty credentials takes no other.
pub proof fn lemma_full_passport_takes_no_credential(ctx: AddCredential, credential_id: Seq<char>)
    requires
        ctx.identity_passport@.credentials.len() >= MAX_CREDENTIALS,
    ensures
        add_credential_rejection(ctx, credential_id) is Some,
{
}

} // verus!
