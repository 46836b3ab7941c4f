//! Global guarantees of the registry, stated over the operations' state
//! transitions and proved once for every store and every argument.

use crate::addr::asset_pda;
use crate::addr::framework_pda;
use crate::addr::record_pda;
use crate::error::AssetErrorCode;
use crate::error::ErrorCode;
use crate::error::TrustErrorCode;
use crate::error::UpdateErrorCode;
use crate::registry::any_criterion_too_long;
use crate::registry::asset_active;
use crate::registry::expiry_in_past;
use crate::registry::framework_active;
use crate::registry::opt_too_long;
use crate::registry::spec_create_asset_profile;
use crate::registry::spec_create_trust_framework;
use crate::registry::spec_issue_trust;
use crate::registry::spec_update_trust_framework;
use crate::registry::EntityV;
use crate::state::AssetProfileV;
use crate::state::AssetType;
use crate::state::TrustFrameworkV;
use crate::state::TrustRecordV;
use crate::state::FRAMEWORK_MAX_CRITERIA_COUNT;
use crate::state::FRAMEWORK_MAX_DESCRIPTION_LEN;
use crate::state::FRAMEWORK_MAX_NAME_LEN;
use crate::state::ASSET_MAX_DESCRIPTION_LEN;
use crate::state::ASSET_MAX_METADATA_URI_LEN;
use crate::state::ASSET_MAX_NAME_LEN;
use crate::state::MAX_TRUST_SCORE;
use crate::state::RECORD_MAX_EVIDENCE_LEN;
use vstd::prelude::*;

verus! {

/// Every committed entity sits at the address derived from its own stored
/// key fields, and carries that derivation's bump: any party holding the
/// stored fields can re-derive the storage location and its proof byte.
pub open spec fn canonically_addressed(reg: Map<Seq<u8>, EntityV>) -> bool {
    forall|a: Seq<u8>| #[trigger]
        reg.contains_key(a) ==> match reg[a] {
            EntityV::Framework(f) => framework_pda(f.authority, f.framework_id) == Some(
                (a, f.bump),
            ),
            EntityV::Asset(p) => asset_pda(p.owner, p.asset_id) == Some((a, p.bump)),
            EntityV::Record(r) => record_pda(r.framework, r.issuer, r.target_asset) == Some(
                (a, r.bump),
            ),
        }
}

/// The empty store is canonically addressed.
pub proof fn lemma_empty_store_canonically_addressed()
    ensures
        canonically_addressed(Map::<Seq<u8>, EntityV>::empty()),
{
}

/// Creating a framework preserves canonical addressing: the new entity is
/// committed exactly at its own derivation.
pub proof fn lemma_create_trust_framework_preserves_addressing(
    reg: Map<Seq<u8>, EntityV>,
    authority: Seq<u8>,
    framework_id: u64,
    name: Seq<char>,
    description: Seq<char>,
    criteria: Seq<Seq<char>>,
    now: i64,
)
    requires
        canonically_addressed(reg),
    ensures
        canonically_addressed(
            spec_create_trust_framework(
                reg,
                authority,
                framework_id,
                name,
                description,
                criteria,
                now,
            ).0,
        ),
{
    let m = spec_create_trust_framework(
        reg,
        authority,
        framework_id,
        name,
        description,
        criteria,
        now,
    ).0;
    assert forall|a: Seq<u8>| #[trigger] m.contains_key(a) implies match m[a] {
        EntityV::Framework(f) => framework_pda(f.authority, f.framework_id) == Some((a, f.bump)),
        EntityV::Asset(p) => asset_pda(p.owner, p.asset_id) == Some((a, p.bump)),
        EntityV::Record(r) => record_pda(r.framework, r.issuer, r.target_asset) == Some(
            (a, r.bump),
        ),
    } by {
        match framework_pda(authority, framework_id) {
            Some(p) => {
                if a != p.0 || reg.contains_key(p.0) {
                    assert(reg.contains_key(a));
                }
            },
            None => {
                assert(reg.contains_key(a));
            },
        }
    }
}

/// Creating an asset profile preserves canonical addressing: the new entity
/// is committed exactly at its own derivation.
pub proof fn lemma_create_asset_profile_preserves_addressing(
    reg: Map<Seq<u8>, EntityV>,
    owner: Seq<u8>,
    asset_id: u64,
    name: Seq<char>,
    description: Seq<char>,
    asset_type: AssetType,
    metadata_uri: Option<Seq<char>>,
    now: i64,
)
    requires
        canonically_addressed(reg),
    ensures
        canonically_addressed(
            spec_create_asset_profile(
                reg,
                owner,
                asset_id,
                name,
                description,
                asset_type,
                metadata_uri,
                now,
            ).0,
        ),
{
    let m = spec_create_asset_profile(
        reg,
        owner,
        asset_id,
        name,
        description,
        asset_type,
        metadata_uri,
        now,
    ).0;
    assert forall|a: Seq<u8>| #[trigger] m.contains_key(a) implies match m[a] {
        EntityV::Framework(f) => framework_pda(f.authority, f.framework_id) == Some((a, f.bump)),
        EntityV::Asset(p) => asset_pda(p.owner, p.asset_id) == Some((a, p.bump)),
        EntityV::Record(r) => record_pda(r.framework, r.issuer, r.target_asset) == Some(
            (a, r.bump),
        ),
    } by {
        match asset_pda(owner, asset_id) {
            Some(p) => {
                if a != p.0 || reg.contains_key(p.0) {
                    assert(reg.contains_key(a));
                }
            },
            None => {
                assert(reg.contains_key(a));
            },
        }
    }
}

/// Issuing trust preserves canonical addressing: the new record is committed
/// exactly at its own derivation.
pub proof fn lemma_issue_trust_preserves_addressing(
    reg: Map<Seq<u8>, EntityV>,
    issuer: Seq<u8>,
    framework_address: Seq<u8>,
    asset_address: Seq<u8>,
    trust_score: u8,
    evidence: Seq<char>,
    expires_at: Option<i64>,
    now: i64,
)
    requires
        canonically_addressed(reg),
    ensures
        canonically_addressed(
            spec_issue_trust(
                reg,
                issuer,
                framework_address,
                asset_address,
                trust_score,
                evidence,
                expires_at,
                now,
            ).0,
        ),
{
    let m = spec_issue_trust(
        reg,
        issuer,
        framework_address,
        asset_address,
        trust_score,
        evidence,
        expires_at,
        now,
    ).0;
    assert forall|a: Seq<u8>| #[trigger] m.contains_key(a) implies match m[a] {
        EntityV::Framework(f) => framework_pda(f.authority, f.framework_id) == Some((a, f.bump)),
        EntityV::Asset(p) => asset_pda(p.owner, p.asset_id) == Some((a, p.bump)),
        EntityV::Record(r) => record_pda(r.framework, r.issuer, r.target_asset) == Some(
            (a, r.bump),
        ),
    } by {
        match record_pda(framework_address, issuer, asset_address) {
            Some(p) => {
                if a != p.0 || reg.contains_key(p.0) {
                    assert(reg.contains_key(a));
                }
            },
            None => {
                assert(reg.contains_key(a));
            },
        }
    }
}

/// Updating a framework preserves canonical addressing: the update keeps the
/// key fields and the bump, so the stored entity still re-derives to its
/// slot.
pub proof fn lemma_update_trust_framework_preserves_addressing(
    reg: Map<Seq<u8>, EntityV>,
    caller: Seq<u8>,
    address: Seq<u8>,
    name: Option<Seq<char>>,
    description: Option<Seq<char>>,
    criteria: Option<Seq<Seq<char>>>,
    is_active: Option<bool>,
)
    requires
        canonically_addressed(reg),
        reg.contains_key(address),
    ensures
        canonically_addressed(
            spec_update_trust_framework(
                reg,
                caller,
                address,
                name,
                description,
                criteria,
                is_active,
            ).0,
        ),
{
    let m = spec_update_trust_framework(
        reg,
        caller,
        address,
        name,
        description,
        criteria,
        is_active,
    ).0;
    assert forall|a: Seq<u8>| #[trigger] m.contains_key(a) implies match m[a] {
        EntityV::Framework(f) => framework_pda(f.authority, f.framework_id) == Some((a, f.bump)),
        EntityV::Asset(p) => asset_pda(p.owner, p.asset_id) == Some((a, p.bump)),
        EntityV::Record(r) => record_pda(r.framework, r.issuer, r.target_asset) == Some(
            (a, r.bump),
        ),
    } by {
        if a != address {
            assert(reg.contains_key(a));
        } else {
            assert(reg.contains_key(address));
        }
    }
}

/// A successful framework creation commits the new framework, active and
/// stamped with the call's timestamp, at the address derived from its key
/// fields, carrying the derivation's bump; a second creation with the same
/// key fields — whatever its other in-bound arguments — then finds the
/// address occupied, fails with AddressAlreadyInUse and changes nothing.
pub proof fn lemma_framework_creation_addresses(
    reg: Map<Seq<u8>, EntityV>,
    authority: Seq<u8>,
    framework_id: u64,
    name: Seq<char>,
    description: Seq<char>,
    criteria: Seq<Seq<char>>,
    now: i64,
    name2: Seq<char>,
    description2: Seq<char>,
    criteria2: Seq<Seq<char>>,
    now2: i64,
    address: Seq<u8>,
    bump: u8,
)
    requires
        spec_create_trust_framework(
            reg,
            authority,
            framework_id,
            name,
            description,
            criteria,
            now,
        ).1 is Ok,
        framework_pda(authority, framework_id) == Some((address, bump)),
        name2.len() <= FRAMEWORK_MAX_NAME_LEN,
        description2.len() <= FRAMEWORK_MAX_DESCRIPTION_LEN,
        criteria2.len() <= FRAMEWORK_MAX_CRITERIA_COUNT,
        !any_criterion_too_long(criteria2),
    ensures
        ({
            let m = spec_create_trust_framework(
                reg,
                authority,
                framework_id,
                name,
                description,
                criteria,
                now,
            ).0;
            &&& m.contains_key(address)
            &&& m[address] == EntityV::Framework(
                TrustFrameworkV {
                    authority,
                    framework_id,
                    name,
                    description,
                    criteria,
                    is_active: true,
                    created_at: now,
                    bump,
                },
            )
            &&& spec_create_trust_framework(
                m,
                authority,
                framework_id,
                name2,
                description2,
                criteria2,
                now2,
            ) == (m, Err::<(), ErrorCode>(ErrorCode::AddressAlreadyInUse))
        }),
{
}

/// A successful asset creation commits the new profile, active and stamped
/// with the call's timestamp, at the address derived from its key fields,
/// carrying the derivation's bump; a second creation with the same key
/// fields — whatever its other in-bound arguments — then finds the address
/// occupied, fails with AddressAlreadyInUse and changes nothing.
pub proof fn lemma_asset_creation_addresses(
    reg: Map<Seq<u8>, EntityV>,
    owner: Seq<u8>,
    asset_id: u64,
    name: Seq<char>,
    description: Seq<char>,
    asset_type: AssetType,
    metadata_uri: Option<Seq<char>>,
    now: i64,
    name2: Seq<char>,
    description2: Seq<char>,
    asset_type2: AssetType,
    metadata_uri2: Option<Seq<char>>,
    now2: i64,
    address: Seq<u8>,
    bump: u8,
)
    requires
        spec_create_asset_profile(
            reg,
            owner,
            asset_id,
            name,
            description,
            asset_type,
            metadata_uri,
            now,
        ).1 is Ok,
        asset_pda(owner, asset_id) == Some((address, bump)),
        name2.len() <= ASSET_MAX_NAME_LEN,
        description2.len() <= ASSET_MAX_DESCRIPTION_LEN,
        !opt_too_long(metadata_uri2, ASSET_MAX_METADATA_URI_LEN as int),
    ensures
        ({
            let m = spec_create_asset_profile(
                reg,
                owner,
                asset_id,
                name,
                description,
                asset_type,
                metadata_uri,
                now,
            ).0;
            &&& m.contains_key(address)
            &&& m[address] == EntityV::Asset(
                AssetProfileV {
                    owner,
                    asset_id,
                    name,
                    description,
                    asset_type,
                    metadata_uri,
                    is_active: true,
                    created_at: now,
                    bump,
                },
            )
            &&& spec_create_asset_profile(
                m,
                owner,
                asset_id,
                name2,
                description2,
                asset_type2,
                metadata_uri2,
                now2,
            ) == (m, Err::<(), AssetErrorCode>(AssetErrorCode::AddressAlreadyInUse))
        }),
{
}

/// A successful issuance commits the new record, active and stamped with the
/// call's timestamp, at the address derived from its key triple, carrying
/// the derivation's bump; issuing again for the same (framework, issuer,
/// asset) triple — whatever its other in-bound arguments — then finds the
/// address occupied, fails with AddressAlreadyInUse and changes nothing.
pub proof fn lemma_issuance_addresses(
    reg: Map<Seq<u8>, EntityV>,
    issuer: Seq<u8>,
    framework_address: Seq<u8>,
    asset_address: Seq<u8>,
    trust_score: u8,
    evidence: Seq<char>,
    expires_at: Option<i64>,
    now: i64,
    trust_score2: u8,
    evidence2: Seq<char>,
    expires_at2: Option<i64>,
    now2: i64,
    address: Seq<u8>,
    bump: u8,
)
    requires
        spec_issue_trust(
            reg,
            issuer,
            framework_address,
            asset_address,
            trust_score,
            evidence,
            expires_at,
            now,
        ).1 is Ok,
        record_pda(framework_address, issuer, asset_address) == Some((address, bump)),
        trust_score2 <= MAX_TRUST_SCORE,
        evidence2.len() <= RECORD_MAX_EVIDENCE_LEN,
        !expiry_in_past(expires_at2, now2),
        address != framework_address,
        address != asset_address,
    ensures
        ({
            let m = spec_issue_trust(
                reg,
                issuer,
                framework_address,
                asset_address,
                trust_score,
                evidence,
                expires_at,
                now,
            ).0;
            &&& m.contains_key(address)
            &&& m[address] == EntityV::Record(
                TrustRecordV {
                    framework: framework_address,
                    issuer,
                    target_asset: asset_address,
                    trust_score,
                    evidence,
                    is_active: true,
                    issued_at: now,
                    expires_at,
                    bump,
                },
            )
            &&& spec_issue_trust(
                m,
                issuer,
                framework_address,
                asset_address,
                trust_score2,
                evidence2,
                expires_at2,
                now2,
            ) == (m, Err::<(), TrustErrorCode>(TrustErrorCode::AddressAlreadyInUse))
        }),
{
}

/// Boundary behaviour of framework creation: each bounded argument is
/// accepted at exactly its maximum and rejected one unit over it with its
/// named error, the checks falling in this order; success comes exactly when
/// every bound holds and the derived address is free; a failing call leaves
/// the store unchanged.
pub proof fn lemma_create_trust_framework_outcomes(
    reg: Map<Seq<u8>, EntityV>,
    authority: Seq<u8>,
    framework_id: u64,
    name: Seq<char>,
    description: Seq<char>,
    criteria: Seq<Seq<char>>,
    now: i64,
)
    ensures
        ({
            let (m, res) = spec_create_trust_framework(
                reg,
                authority,
                framework_id,
                name,
                description,
                criteria,
                now,
            );
            &&& (res == Err::<(), ErrorCode>(ErrorCode::NameTooLong) <==> name.len()
                > FRAMEWORK_MAX_NAME_LEN)
            &&& (res == Err::<(), ErrorCode>(ErrorCode::DescriptionTooLong) <==> (name.len()
                <= FRAMEWORK_MAX_NAME_LEN && description.len() > FRAMEWORK_MAX_DESCRIPTION_LEN))
            &&& (res == Err::<(), ErrorCode>(ErrorCode::TooManyCriteria) <==> (name.len()
                <= FRAMEWORK_MAX_NAME_LEN && description.len() <= FRAMEWORK_MAX_DESCRIPTION_LEN
                && criteria.len() > FRAMEWORK_MAX_CRITERIA_COUNT))
            &&& (res == Err::<(), ErrorCode>(ErrorCode::CriteriaTooLong) <==> (name.len()
                <= FRAMEWORK_MAX_NAME_LEN && description.len() <= FRAMEWORK_MAX_DESCRIPTION_LEN
                && criteria.len() <= FRAMEWORK_MAX_CRITERIA_COUNT && any_criterion_too_long(
                criteria,
            )))
            &&& (res is Ok <==> (name.len() <= FRAMEWORK_MAX_NAME_LEN && description.len()
                <= FRAMEWORK_MAX_DESCRIPTION_LEN && criteria.len() <= FRAMEWORK_MAX_CRITERIA_COUNT
                && !any_criterion_too_long(criteria) && (framework_pda(authority, framework_id)
                matches Some(p) && !reg.contains_key(p.0))))
            &&& (res is Err ==> m == reg)
        }),
{
}

/// Boundary behaviour of asset creation: each bounded argument is accepted
/// at exactly its maximum and rejected one unit over it with its named
/// error, the checks falling in this order; success comes exactly when every
/// bound holds and the derived address is free; a failing call leaves the
/// store unchanged.
pub proof fn lemma_create_asset_profile_outcomes(
    reg: Map<Seq<u8>, EntityV>,
    owner: Seq<u8>,
    asset_id: u64,
    name: Seq<char>,
    description: Seq<char>,
    asset_type: AssetType,
    metadata_uri: Option<Seq<char>>,
    now: i64,
)
    ensures
        ({
            let (m, res) = spec_create_asset_profile(
                reg,
                owner,
                asset_id,
                name,
                description,
                asset_type,
                metadata_uri,
                now,
            );
            &&& (res == Err::<(), AssetErrorCode>(AssetErrorCode::NameTooLong) <==> name.len()
                > ASSET_MAX_NAME_LEN)
            &&& (res == Err::<(), AssetErrorCode>(AssetErrorCode::DescriptionTooLong) <==> (
            name.len() <= ASSET_MAX_NAME_LEN && description.len() > ASSET_MAX_DESCRIPTION_LEN))
            &&& (res == Err::<(), AssetErrorCode>(AssetErrorCode::MetadataUriTooLong) <==> (
            name.len() <= ASSET_MAX_NAME_LEN && description.len() <= ASSET_MAX_DESCRIPTION_LEN
                && opt_too_long(metadata_uri, ASSET_MAX_METADATA_URI_LEN as int)))
            &&& (res is Ok <==> (name.len() <= ASSET_MAX_NAME_LEN && description.len()
                <= ASSET_MAX_DESCRIPTION_LEN && !opt_too_long(
                metadata_uri,
                ASSET_MAX_METADATA_URI_LEN as int,
            ) && (asset_pda(owner, asset_id) matches Some(p) && !reg.contains_key(p.0))))
            &&& (res is Err ==> m == reg)
        }),
{
}

/// Issuing trust against an address that does not hold an active trust
/// framework fails with FrameworkInactive, whatever the other arguments, and
/// changes nothing.
pub proof fn lemma_issue_trust_requires_active_framework(
    reg: Map<Seq<u8>, EntityV>,
    issuer: Seq<u8>,
    framework_address: Seq<u8>,
    asset_address: Seq<u8>,
    trust_score: u8,
    evidence: Seq<char>,
    expires_at: Option<i64>,
    now: i64,
)
    requires
        !framework_active(reg, framework_address),
    ensures
        spec_issue_trust(
            reg,
            issuer,
            framework_address,
            asset_address,
            trust_score,
            evidence,
            expires_at,
            now,
        ) == (reg, Err::<(), TrustErrorCode>(TrustErrorCode::FrameworkInactive)),
{
}

/// Outcomes of an issuance: each precondition failure comes with its named
/// error, the checks falling in this order — in particular an expiry equal
/// to the current time is rejected while one a unit later passes that check;
/// success comes exactly when both references are active, every bound holds
/// and the derived address is free; a failing call leaves the store
/// unchanged.
pub proof fn lemma_issue_trust_outcomes(
    reg: Map<Seq<u8>, EntityV>,
    issuer: Seq<u8>,
    framework_address: Seq<u8>,
    asset_address: Seq<u8>,
    trust_score: u8,
    evidence: Seq<char>,
    expires_at: Option<i64>,
    now: i64,
)
    ensures
        ({
            let (m, res) = spec_issue_trust(
                reg,
                issuer,
                framework_address,
                asset_address,
                trust_score,
                evidence,
                expires_at,
                now,
            );
            &&& (res == Err::<(), TrustErrorCode>(TrustErrorCode::FrameworkInactive)
                <==> !framework_active(reg, framework_address))
            &&& (res == Err::<(), TrustErrorCode>(TrustErrorCode::AssetInactive) <==> (
            framework_active(reg, framework_address) && !asset_active(reg, asset_address)))
            &&& (res == Err::<(), TrustErrorCode>(TrustErrorCode::InvalidTrustScore) <==> (
            framework_active(reg, framework_address) && asset_active(reg, asset_address)
                && trust_score > MAX_TRUST_SCORE))
            &&& (res == Err::<(), TrustErrorCode>(TrustErrorCode::EvidenceTooLong) <==> (
            framework_active(reg, framework_address) && asset_active(reg, asset_address)
                && trust_score <= MAX_TRUST_SCORE && evidence.len() > RECORD_MAX_EVIDENCE_LEN))
            &&& (res == Err::<(), TrustErrorCode>(TrustErrorCode::ExpiryInPast) <==> (
            framework_active(reg, framework_address) && asset_active(reg, asset_address)
                && trust_score <= MAX_TRUST_SCORE && evidence.len() <= RECORD_MAX_EVIDENCE_LEN
                && expiry_in_past(expires_at, now)))
            &&& (res is Ok <==> (framework_active(reg, framework_address) && asset_active(
                reg,
                asset_address,
            ) && trust_score <= MAX_TRUST_SCORE && evidence.len() <= RECORD_MAX_EVIDENCE_LEN
                && !expiry_in_past(expires_at, now) && (record_pda(
                framework_address,
                issuer,
                asset_address,
            ) matches Some(p) && !reg.contains_key(p.0))))
            &&& (res is Err ==> m == reg)
        }),
{
}

/// An update invoked by any principal other than the framework's stored
/// authority fails with Unauthorized — whatever fields it supplies — and
/// leaves every field of every entity unchanged.
pub proof fn lemma_update_requires_authority(
    reg: Map<Seq<u8>, EntityV>,
    caller: Seq<u8>,
    address: Seq<u8>,
    f: TrustFrameworkV,
    name: Option<Seq<char>>,
    description: Option<Seq<char>>,
    criteria: Option<Seq<Seq<char>>>,
    is_active: Option<bool>,
)
    requires
        reg.contains_key(address),
        reg[address] == EntityV::Framework(f),
        f.authority != caller,
    ensures
        spec_update_trust_framework(reg, caller, address, name, description, criteria, is_active)
            == (reg, Err::<(), UpdateErrorCode>(UpdateErrorCode::Unauthorized)),
{
}

/// An update by the authority that supplies only `is_active = Some(false)`
/// flips exactly that field: name, description, criteria and every other
/// field keep their stored values.
pub proof fn lemma_update_deactivates_only(
    reg: Map<Seq<u8>, EntityV>,
    address: Seq<u8>,
    f: TrustFrameworkV,
)
    requires
        reg.contains_key(address),
        reg[address] == EntityV::Framework(f),
    ensures
        spec_update_trust_framework(reg, f.authority, address, None, None, None, Some(false)) == (
            reg.insert(
                address,
                EntityV::Framework(
                    TrustFrameworkV {
                        authority: f.authority,
                        framework_id: f.framework_id,
                        name: f.name,
                        description: f.description,
                        criteria: f.criteria,
                        is_active: false,
                        created_at: f.created_at,
                        bump: f.bump,
                    },
                ),
            ),
            Ok::<(), UpdateErrorCode>(()),
        ),
{
}

/// Outcomes of an update: the authority check comes first, then each
/// supplied field's bound with its named error, in this order; success comes
/// exactly when the caller is the authority and every supplied field is in
/// bounds, and it replaces exactly the supplied fields; a failing call
/// leaves the store unchanged.
pub proof fn lemma_update_trust_framework_outcomes(
    reg: Map<Seq<u8>, EntityV>,
    caller: Seq<u8>,
    address: Seq<u8>,
    f: TrustFrameworkV,
    name: Option<Seq<char>>,
    description: Option<Seq<char>>,
    criteria: Option<Seq<Seq<char>>>,
    is_active: Option<bool>,
)
    requires
        reg.contains_key(address),
        reg[address] == EntityV::Framework(f),
    ensures
        ({
            let (m, res) = spec_update_trust_framework(
                reg,
                caller,
                address,
                name,
                description,
                criteria,
                is_active,
            );
            &&& (res == Err::<(), UpdateErrorCode>(UpdateErrorCode::Unauthorized) <==> f.authority
                != caller)
            &&& (res == Err::<(), UpdateErrorCode>(UpdateErrorCode::NameTooLong) <==> (f.authority
                == caller && opt_too_long(name, FRAMEWORK_MAX_NAME_LEN as int)))
            &&& (res == Err::<(), UpdateErrorCode>(UpdateErrorCode::DescriptionTooLong) <==> (
            f.authority == caller && !opt_too_long(name, FRAMEWORK_MAX_NAME_LEN as int)
                && opt_too_long(description, FRAMEWORK_MAX_DESCRIPTION_LEN as int)))
            &&& (res == Err::<(), UpdateErrorCode>(UpdateErrorCode::TooManyCriteria) <==> (
            f.authority == caller && !opt_too_long(name, FRAMEWORK_MAX_NAME_LEN as int)
                && !opt_too_long(description, FRAMEWORK_MAX_DESCRIPTION_LEN as int) && (
            criteria matches Some(c) && c.len() > FRAMEWORK_MAX_CRITERIA_COUNT)))
            &&& (res == Err::<(), UpdateErrorCode>(UpdateErrorCode::CriteriaTooLong) <==> (
            f.authority == caller && !opt_too_long(name, FRAMEWORK_MAX_NAME_LEN as int)
                && !opt_too_long(description, FRAMEWORK_MAX_DESCRIPTION_LEN as int) && !(
            criteria matches Some(c) && c.len() > FRAMEWORK_MAX_CRITERIA_COUNT) && (
            criteria matches Some(c) && any_criterion_too_long(c))))
            &&& (res is Ok <==> (f.authority == caller && !opt_too_long(
                name,
                FRAMEWORK_MAX_NAME_LEN as int,
            ) && !opt_too_long(description, FRAMEWORK_MAX_DESCRIPTION_LEN as int) && !(
            criteria matches Some(c) && c.len() > FRAMEWORK_MAX_CRITERIA_COUNT) && !(
            criteria matches Some(c) && any_criterion_too_long(c))))
            &&& (res is Ok ==> m == reg.insert(
                address,
                EntityV::Framework(
                    TrustFrameworkV {
                        authority: f.authority,
                        framework_id: f.framework_id,
                        name: match name {
                            Some(n) => n,
                            None => f.name,
                        },
                        description: match description {
                            Some(d) => d,
                            None => f.description,
                        },
                        criteria: match criteria {
                            Some(c) => c,
                            None => f.criteria,
                        },
                        is_active: match is_active {
                            Some(b) => b,
                            None => f.is_active,
                        },
                        created_at: f.created_at,
                        bump: f.bump,
                    },
                ),
            ))
            &&& (res is Err ==> m == reg)
        }),
{
}

} // verus!
