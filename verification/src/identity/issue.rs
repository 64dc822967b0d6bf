//! The issuance of passports.

use vstd::prelude::*;
use crate::errors::IdentityError;
use crate::identity::accounts::IssueIdentityPassport;
use crate::identity::events::{IdentityPassportIssued, IdentityPassportIssuedView};
use crate::identity::records::{IdentityPassport, IdentityPassportView, IdentityRegistry};
use crate::ledger::{
    passport_authority, DisplayRecord, DisplayRecordView, EditionRecord, TokenInstruction,
    TokenInstructionView,
};
use crate::levels::{InvestorTier, KYCLevel};
use crate::limits::{MAX_DID_LEN, MAX_METADATA_URI_LEN, STARTING_REPUTATION};
use crate::text::{byte_len, decimal, decimal_string, utf8_len};

verus! {

/// What the host has to carry out for an issued passport, in this order: mint
/// the one unit of the bound token, have the display record and the edition
/// record created, and publish the event. Where one of the requests fails, the
/// host keeps none of what the issuance has changed.
#[derive(Clone, Debug, PartialEq, Eq)]
pub struct PassportIssuance {
    pub mint_to: TokenInstruction,
    pub display: DisplayRecord,
    pub edition: EditionRecord,
    pub event: IdentityPassportIssued,
}

/// The first reason, if there is one, for which the issuance of a passport is
/// rejected.
pub open spec fn issue_rejection(
    ctx: IssueIdentityPassport,
    did: Seq<char>,
    metadata_uri: Seq<char>,
    validity_period: i64,
) -> Option<IdentityError> {
    if !ctx.registry@.authorizes(ctx.issuer) {
        Some(IdentityError::UnauthorizedIssuer)
    } else if ctx.registry.paused {
        Some(IdentityError::RegistryPaused)
    } else if did.len() == 0 || utf8_len(did) > MAX_DID_LEN {
        Some(IdentityError::InvalidDID)
    } else if utf8_len(metadata_uri) > MAX_METADATA_URI_LEN {
        Some(IdentityError::MetadataUriTooLong)
    } else if ctx.identity_passport is Some {
        Some(IdentityError::AlreadyInitialized)
    } else if ctx.unix_timestamp + validity_period < i64::MIN || ctx.unix_timestamp
        + validity_period > i64::MAX || ctx.registry.total_passports == u64::MAX {
        Some(IdentityError::ArithmeticOverflow)
    } else {
        None
    }
}

/// The passport as it is issued.
pub open spec fn issued_passport(
    ctx: IssueIdentityPassport,
    did: Seq<char>,
    kyc_level: KYCLevel,
    investor_tier: InvestorTier,
    metadata_uri: Seq<char>,
    validity_period: i64,
) -> IdentityPassportView {
    IdentityPassportView {
        mint: ctx.mint,
        owner: ctx.recipient,
        did,
        kyc_level,
        investor_tier,
        reputation_score: STARTING_REPUTATION,
        issuance_date: ctx.unix_timestamp,
        expiration_date: (ctx.unix_timestamp + validity_period) as i64,
        is_active: true,
        metadata_uri,
        issuer: ctx.issuer,
        cross_chain_addresses: Seq::empty(),
        credentials: Seq::empty(),
        bump: ctx.bump,
    }
}

/// What an accepted issuance makes of its context: the passport stands in
/// its place, the registry has counted it, and the rest is as it was.
pub open spec fn issues(
    before: IssueIdentityPassport,
    after: IssueIdentityPassport,
    did: Seq<char>,
    kyc_level: KYCLevel,
    investor_tier: InvestorTier,
    metadata_uri: Seq<char>,
    validity_period: i64,
) -> bool {
    &&& after.identity_passport matches Some(passport) && passport@ == issued_passport(
        before,
        did,
        kyc_level,
        investor_tier,
        metadata_uri,
        validity_period,
    )
    &&& after.registry == (IdentityRegistry {
        total_passports: (before.registry.total_passports + 1) as u64,
        ..before.registry
    })
    &&& after == (IssueIdentityPassport {
        identity_passport: after.identity_passport,
        registry: after.registry,
        ..before
    })
}

/// The display record of the passport that is issued as number `number`.
pub open spec fn passport_display(number: nat, metadata_uri: Seq<char>) -> DisplayRecordView {
    DisplayRecordView {
        name: "OmniFlow Identity Passport #"@ + decimal(number),
        symbol: "OFIP"@,
        uri: metadata_uri,
        seller_fee_basis_points: 0,
        update_authority_is_signer: true,
        is_mutable: true,
    }
}

/// Issues the passport of `did` to the recipient.
///
/// The request is rejected, and nothing changes, where the signer is neither
/// the registry's authority nor one of its issuers, the registry is paused,
/// the DID is empty or too long, the URI is too long, a passport exists
/// already for the DID, or a date or the counter would overflow. Otherwise the
/// passport is created, active and with the starting reputation, the
/// registry counts it, and the result says what the host has to carry out.
pub fn issue_identity_passport(
    ctx: &mut IssueIdentityPassport,
    did: String,
    kyc_level: KYCLevel,
    investor_tier: InvestorTier,
    metadata_uri: String,
    validity_period: i64,
) -> (res: Result<PassportIssuance, IdentityError>)
    ensures
        match res {
            Ok(out) => {
                &&& issue_rejection(*old(ctx), did@, metadata_uri@, validity_period) is None
                &&& issues(
                    *old(ctx),
                    *final(ctx),
                    did@,
                    kyc_level,
                    investor_tier,
                    metadata_uri@,
                    validity_period,
                )
                &&& final(ctx).identity_passport matches Some(passport) && passport@.wf()
                &&& out.mint_to@ == (TokenInstructionView::MintTo {
                    mint: old(ctx).mint,
                    to: old(ctx).token_account,
                    authority: passport_authority(did@, old(ctx).bump),
                    amount: 1,
                })
                &&& out.display@ == passport_display(
                    (old(ctx).registry.total_passports + 1) as nat,
                    metadata_uri@,
                )
                &&& out.edition == (EditionRecord { max_supply: Some(0) })
                &&& out.event@ == (IdentityPassportIssuedView {
                    passport: old(ctx).passport_key,
                    mint: old(ctx).mint,
                    owner: old(ctx).recipient,
                    did: did@,
                    kyc_level,
                    investor_tier,
                })
            },
            Err(e) => {
                &&& issue_rejection(*old(ctx), did@, metadata_uri@, validity_period) == Some(e)
                &&& *final(ctx) == *old(ctx)
            },
        },
        old(ctx).registry.paused && old(ctx).registry@.authorizes(old(ctx).issuer) ==> res
            == Err::<PassportIssuance, IdentityError>(IdentityError::RegistryPaused),
        old(ctx).identity_passport is Some ==> res is Err,
{
    if !ctx.registry.authorizes(&ctx.issuer) {
        return Err(IdentityError::UnauthorizedIssuer);
    }
    if ctx.registry.paused {
        return Err(IdentityError::RegistryPaused);
    }
    if did.as_str().is_empty() || byte_len(&did) > MAX_DID_LEN {
        return Err(IdentityError::InvalidDID);
    }
    if byte_len(&metadata_uri) > MAX_METADATA_URI_LEN {
        return Err(IdentityError::MetadataUriTooLong);
    }
    if ctx.identity_passport.is_some() {
        return Err(IdentityError::AlreadyInitialized);
    }
    let expiration_date = match ctx.unix_timestamp.checked_add(validity_period) {
        Some(date) => date,
        None => {
            return Err(IdentityError::ArithmeticOverflow);
        },
    };
    let number = match ctx.registry.total_passports.checked_add(1) {
        Some(n) => n,
        None => {
            return Err(IdentityError::ArithmeticOverflow);
        },
    };
    let passport = IdentityPassport {
        mint: ctx.mint,
        owner: ctx.recipient,
        did: did.clone(),
        kyc_level,
        investor_tier,
        reputation_score: STARTING_REPUTATION,
        issuance_date: ctx.unix_timestamp,
        expiration_date,
        is_active: true,
        metadata_uri: metadata_uri.clone(),
        issuer: ctx.issuer,
        cross_chain_addresses: Vec::new(),
        credentials: Vec::new(),
        bump: ctx.bump,
    };
    let mint_to = TokenInstruction::MintTo {
        mint: ctx.mint,
        to: ctx.token_account,
        authority: passport.signer_seeds(),
        amount: 1,
    };
    let mut name = String::from_str("OmniFlow Identity Passport #");
    let digits = decimal_string(number);
    name.append(digits.as_str());
    let display = DisplayRecord {
        name,
        symbol: String::from_str("OFIP"),
        uri: metadata_uri,
        seller_fee_basis_points: 0,
        update_authority_is_signer: true,
        is_mutable: true,
    };
    let event = IdentityPassportIssued {
        passport: ctx.passport_key,
        mint: ctx.mint,
        owner: ctx.recipient,
        did,
        kyc_level,
        investor_tier,
    };
    assert(passport.cross_chain_addresses.deep_view() =~= Seq::empty());
    assert(passport.credentials.deep_view() =~= Seq::empty());
    ctx.identity_passport = Some(passport);
    ctx.registry.total_passports = number;
    Ok(PassportIssuance { mint_to, display, edition: EditionRecord { max_supply: Some(0) }, event })
}

/// A DID is used once: where an issuance has been accepted, every further
/// issuance in the context that it left is rejected.
pub proof fn lemma_did_is_used_once(
    before: IssueIdentityPassport,
    after: IssueIdentityPassport,
    did: Seq<char>,
    kyc_level: KYCLevel,
    investor_tier: InvestorTier,
    metadata_uri: Seq<char>,
    validity_period: i64,
    next_did: Seq<char>,
    next_uri: Seq<char>,
    next_validity: i64,
)
    requires
        issues(before, after, did, kyc_level, investor_tier, metadata_uri, validity_period),
    ensures
        issue_rejection(after, next_did, next_uri, next_validity) is Some,
{
}

/// A paused registry issues nothing: the request of a signer who may issue is
/// rejected as paused, whatever else holds of it.
pub proof fn lemma_paused_registry_issues_nothing(
    ctx: IssueIdentityPassport,
    did: Seq<char>,
    metadata_uri: Seq<char>,
    validity_period: i64,
)
    requires
        ctx.registry.paused,
        ctx.registry@.authorizes(ctx.issuer),
    ensures
        issue_rejection(ctx, did, metadata_uri, validity_period) == Some(
            IdentityError::RegistryPaused,
        ),
{
}

/// A passport starts with a reputation of 100, active, with no address and no
/// credential, and expires when its validity period has passed since its
/// issuance.
pub proof fn lemma_issued_passport_starts_clean(
    ctx: IssueIdentityPassport,
    did: Seq<char>,
    kyc_level: KYCLevel,
    investor_tier: InvestorTier,
    metadata_uri: Seq<char>,
    validity_period: i64,
)
    requires
        issue_rejection(ctx, did, metadata_uri, validity_period) is None,
    ensures
        ({
            let passport = issued_passport(
                ctx,
                did,
                kyc_level,
                investor_tier,
                metadata_uri,
                validity_period,
            );
            &&& passport.reputation_score == 100
            &&& passport.is_active
            &&& passport.expiration_date == passport.issuance_date + validity_period
            &&& passport.cross_chain_addresses.len() == 0
            &&& passport.credentials.len() == 0
            &&& passport.wf()
        }),
{
}

} // verus!
