//! The entity store: a single address space holding the three entity types,
//! with the validated state transitions that create and mutate them.

use crate::addr::asset_pda;
use crate::addr::copy_bytes;
use crate::addr::derive_asset_address;
use crate::addr::derive_framework_address;
use crate::addr::derive_record_address;
use crate::addr::framework_pda;
use crate::addr::record_pda;
use crate::error::AssetErrorCode;
use crate::error::ErrorCode;
use crate::error::TrustErrorCode;
use crate::error::UpdateErrorCode;
use crate::state::AssetProfile;
use crate::state::AssetType;
use crate::state::AssetProfileV;
use crate::state::TrustFramework;
use crate::state::TrustFrameworkV;
use crate::state::TrustRecord;
use crate::state::TrustRecordV;
use crate::state::ASSET_MAX_DESCRIPTION_LEN;
use crate::state::ASSET_MAX_METADATA_URI_LEN;
use crate::state::ASSET_MAX_NAME_LEN;
use crate::state::FRAMEWORK_MAX_CRITERIA_COUNT;
use crate::state::FRAMEWORK_MAX_CRITERIA_LEN;
use crate::state::FRAMEWORK_MAX_DESCRIPTION_LEN;
use crate::state::FRAMEWORK_MAX_NAME_LEN;
use crate::state::MAX_TRUST_SCORE;
use crate::state::RECORD_MAX_EVIDENCE_LEN;
use vstd::pervasive::unreached;
use vstd::prelude::*;

verus! {

/// An entity committed at a storage address.
pub enum Entity {
    Framework(TrustFramework),
    Asset(AssetProfile),
    Record(TrustRecord),
}

/// The mathematical value of an [`Entity`].
#[verifier::ext_equal]
pub ghost enum EntityV {
    Framework(TrustFrameworkV),
    Asset(AssetProfileV),
    Record(TrustRecordV),
}

impl View for Entity {
    type V = EntityV;

    open spec fn view(&self) -> EntityV {
        match self {
            Entity::Framework(f) => EntityV::Framework(f@),
            Entity::Asset(a) => EntityV::Asset(a@),
            Entity::Record(r) => EntityV::Record(r@),
        }
    }
}

/// The store: each entity exclusively owns its storage slot, keyed by its
/// derived address.
pub struct Registry {
    entries: Vec<(Vec<u8>, Entity)>,
}

/// The map from occupied addresses to the entities they hold.
pub closed spec fn entries_map(s: Seq<(Vec<u8>, Entity)>) -> Map<Seq<u8>, EntityV>
    decreases s.len(),
{
    if s.len() == 0 {
        Map::empty()
    } else {
        entries_map(s.drop_last()).insert(s.last().0@, s.last().1@)
    }
}

impl View for Registry {
    type V = Map<Seq<u8>, EntityV>;

    closed spec fn view(&self) -> Map<Seq<u8>, EntityV> {
        entries_map(self.entries@)
    }
}

/// Each slot in the list has its own address.
pub closed spec fn distinct_keys(s: Seq<(Vec<u8>, Entity)>) -> bool {
    forall|i: int, j: int| 0 <= i < j < s.len() ==> s[i].0@ != s[j].0@
}

impl Registry {
    /// Each occupied slot has its own address.
    pub closed spec fn wf(&self) -> bool {
        distinct_keys(self.entries@)
    }

    /// An empty store.
    pub fn new() -> (r: Registry)
        ensures
            r.wf(),
            r@ == Map::<Seq<u8>, EntityV>::empty(),
    {
        Registry { entries: Vec::new() }
    }
}

proof fn lemma_entries_map_contains(s: Seq<(Vec<u8>, Entity)>)
    ensures
        forall|k: Seq<u8>|
            #[trigger] entries_map(s).contains_key(k) <==> exists|i: int|
                0 <= i < s.len() && s[i].0@ == k,
    decreases s.len(),
{
    if s.len() > 0 {
        let t = s.drop_last();
        lemma_entries_map_contains(t);
        assert(entries_map(s) == entries_map(t).insert(s.last().0@, s.last().1@));
        assert forall|k: Seq<u8>| #[trigger]
            entries_map(s).contains_key(k) implies exists|i: int|
            0 <= i < s.len() && s[i].0@ == k by {
            if s.last().0@ == k {
                assert(s[s.len() - 1].0@ == k);
            } else {
                assert(entries_map(t).contains_key(k));
                let i = choose|i: int| 0 <= i < t.len() && t[i].0@ == k;
                assert(t[i] == s[i]);
                assert(s[i].0@ == k);
            }
        }
        assert forall|k: Seq<u8>|
            (exists|i: int| 0 <= i < s.len() && s[i].0@ == k) implies #[trigger] entries_map(
            s,
        ).contains_key(k) by {
            let i = choose|i: int| 0 <= i < s.len() && s[i].0@ == k;
            if i < s.len() - 1 {
                assert(t[i] == s[i]);
                assert(t[i].0@ == k);
                assert(entries_map(t).contains_key(k));
            }
        }
    }
}

proof fn lemma_entries_map_index(s: Seq<(Vec<u8>, Entity)>, i: int)
    requires
        distinct_keys(s),
        0 <= i < s.len(),
    ensures
        entries_map(s).contains_key(s[i].0@),
        entries_map(s)[s[i].0@] == s[i].1@,
    decreases s.len(),
{
    let t = s.drop_last();
    if i == s.len() - 1 {
        assert(entries_map(s) == entries_map(t).insert(s.last().0@, s.last().1@));
    } else {
        assert(distinct_keys(t)) by {
            assert forall|p: int, q: int| 0 <= p < q < t.len() implies t[p].0@ != t[q].0@ by {
                assert(t[p] == s[p] && t[q] == s[q]);
            }
        }
        lemma_entries_map_index(t, i);
        assert(t[i] == s[i]);
        assert(s[i].0@ != s.last().0@);
    }
}

proof fn lemma_entries_map_update(s: Seq<(Vec<u8>, Entity)>, i: int, p: (Vec<u8>, Entity))
    requires
        distinct_keys(s),
        0 <= i < s.len(),
        p.0@ == s[i].0@,
    ensures
        entries_map(s.update(i, p)) == entries_map(s).insert(p.0@, p.1@),
    decreases s.len(),
{
    let su = s.update(i, p);
    let t = s.drop_last();
    if i == s.len() - 1 {
        assert(su.drop_last() =~= t);
        assert(su.last() == p);
        assert(entries_map(su) =~= entries_map(s).insert(p.0@, p.1@));
    } else {
        assert(distinct_keys(t)) by {
            assert forall|a: int, b: int| 0 <= a < b < t.len() implies t[a].0@ != t[b].0@ by {
                assert(t[a] == s[a] && t[b] == s[b]);
            }
        }
        lemma_entries_map_update(t, i, p);
        assert(su.drop_last() =~= t.update(i, p));
        assert(su.last() == s.last());
        assert(entries_map(su) == entries_map(t.update(i, p)).insert(s.last().0@, s.last().1@));
        // The updated key differs from the final slot's key, so the two
        // inserts commute.
        assert(t[i] == s[i]);
        assert(p.0@ != s.last().0@);
        assert(entries_map(t).insert(p.0@, p.1@).insert(s.last().0@, s.last().1@) =~= entries_map(
            t,
        ).insert(s.last().0@, s.last().1@).insert(p.0@, p.1@));
        assert(entries_map(s) == entries_map(t).insert(s.last().0@, s.last().1@));
    }
}

/// Whether `address` holds an active trust framework.
pub open spec fn framework_active(reg: Map<Seq<u8>, EntityV>, address: Seq<u8>) -> bool {
    reg.contains_key(address) && match reg[address] {
        EntityV::Framework(f) => f.is_active,
        _ => false,
    }
}

/// Whether `address` holds an active asset profile.
pub open spec fn asset_active(reg: Map<Seq<u8>, EntityV>, address: Seq<u8>) -> bool {
    reg.contains_key(address) && match reg[address] {
        EntityV::Asset(a) => a.is_active,
        _ => false,
    }
}

/// Whether `address` holds a trust framework, active or not.
pub open spec fn holds_framework(reg: Map<Seq<u8>, EntityV>, address: Seq<u8>) -> bool {
    reg.contains_key(address) && reg[address] matches EntityV::Framework(_)
}

/// Whether an optional replacement string is over a length bound.
pub open spec fn opt_too_long(v: Option<Seq<char>>, max: int) -> bool {
    match v {
        Some(s) => s.len() > max,
        None => false,
    }
}

/// Whether any criterion in the list is over the per-criterion bound.
pub open spec fn any_criterion_too_long(criteria: Seq<Seq<char>>) -> bool {
    exists|i: int| 0 <= i < criteria.len() && criteria[i].len() > FRAMEWORK_MAX_CRITERIA_LEN
}

/// Whether the supplied expiry is not strictly in the future.
pub open spec fn expiry_in_past(expires_at: Option<i64>, now: i64) -> bool {
    match expires_at {
        Some(e) => e <= now,
        None => false,
    }
}

/// The state transition of [`Registry::create_trust_framework`]: the store
/// after the call together with the operation's result. Arguments are
/// validated against their bounds; then the address is derived from
/// (authority, framework id); an unoccupied derived address receives the new
/// active framework, stamped with `now` and the derivation's bump.
pub open spec fn spec_create_trust_framework(
    reg: Map<Seq<u8>, EntityV>,
    authority: Seq<u8>,
    framework_id: u64,
    name: Seq<char>,
    description: Seq<char>,
    criteria: Seq<Seq<char>>,
    now: i64,
) -> (Map<Seq<u8>, EntityV>, Result<(), ErrorCode>) {
    if name.len() > FRAMEWORK_MAX_NAME_LEN {
        (reg, Err(ErrorCode::NameTooLong))
    } else if description.len() > FRAMEWORK_MAX_DESCRIPTION_LEN {
        (reg, Err(ErrorCode::DescriptionTooLong))
    } else if criteria.len() > FRAMEWORK_MAX_CRITERIA_COUNT {
        (reg, Err(ErrorCode::TooManyCriteria))
    } else if any_criterion_too_long(criteria) {
        (reg, Err(ErrorCode::CriteriaTooLong))
    } else {
        match framework_pda(authority, framework_id) {
            None => (reg, Err(ErrorCode::AddressUnderivable)),
            Some((address, bump)) => {
                if reg.contains_key(address) {
                    (reg, Err(ErrorCode::AddressAlreadyInUse))
                } else {
                    (
                        reg.insert(
                            address,
                            EntityV::Framework(
                                TrustFrameworkV {
                                    authority,
                                    framework_id,
                                    name,
                                    description,
                                    criteria,
                                    is_active: true,
                                    created_at: now,
                                    bump,
                                },
                            ),
                        ),
                        Ok(()),
                    )
                }
            },
        }
    }
}

/// The state transition of [`Registry::create_asset_profile`]: the store
/// after the call together with the operation's result. Arguments are
/// validated against their bounds; then the address is derived from
/// (owner, asset id); an unoccupied derived address receives the new active
/// profile, stamped with `now` and the derivation's bump.
pub open spec fn spec_create_asset_profile(
    reg: Map<Seq<u8>, EntityV>,
    owner: Seq<u8>,
    asset_id: u64,
    name: Seq<char>,
    description: Seq<char>,
    asset_type: AssetType,
    metadata_uri: Option<Seq<char>>,
    now: i64,
) -> (Map<Seq<u8>, EntityV>, Result<(), AssetErrorCode>) {
    if name.len() > ASSET_MAX_NAME_LEN {
        (reg, Err(AssetErrorCode::NameTooLong))
    } else if description.len() > ASSET_MAX_DESCRIPTION_LEN {
        (reg, Err(AssetErrorCode::DescriptionTooLong))
    } else if opt_too_long(metadata_uri, ASSET_MAX_METADATA_URI_LEN as int) {
        (reg, Err(AssetErrorCode::MetadataUriTooLong))
    } else {
        match asset_pda(owner, asset_id) {
            None => (reg, Err(AssetErrorCode::AddressUnderivable)),
            Some((address, bump)) => {
                if reg.contains_key(address) {
                    (reg, Err(AssetErrorCode::AddressAlreadyInUse))
                } else {
                    (
                        reg.insert(
                            address,
                            EntityV::Asset(
                                AssetProfileV {
                                    owner,
                                    asset_id,
                                    name,
                                    description,
                                    asset_type,
                                    metadata_uri,
                                    is_active: true,
                                    created_at: now,
                                    bump,
                                },
                            ),
                        ),
                        Ok(()),
                    )
                }
            },
        }
    }
}

/// The state transition of [`Registry::issue_trust`]: the store after the
/// call together with the operation's result. The referenced framework and
/// asset must be present and active; the arguments are validated; then the
/// address is derived from (framework, issuer, asset); an unoccupied derived
/// address receives the new active record, stamped with `now` and the
/// derivation's bump.
pub open spec fn spec_issue_trust(
    reg: Map<Seq<u8>, EntityV>,
    issuer: Seq<u8>,
    framework_address: Seq<u8>,
    asset_address: Seq<u8>,
    trust_score: u8,
    evidence: Seq<char>,
    expires_at: Option<i64>,
    now: i64,
) -> (Map<Seq<u8>, EntityV>, Result<(), TrustErrorCode>) {
    if !framework_active(reg, framework_address) {
        (reg, Err(TrustErrorCode::FrameworkInactive))
    } else if !asset_active(reg, asset_address) {
        (reg, Err(TrustErrorCode::AssetInactive))
    } else if trust_score > MAX_TRUST_SCORE {
        (reg, Err(TrustErrorCode::InvalidTrustScore))
    } else if evidence.len() > RECORD_MAX_EVIDENCE_LEN {
        (reg, Err(TrustErrorCode::EvidenceTooLong))
    } else if expiry_in_past(expires_at, now) {
        (reg, Err(TrustErrorCode::ExpiryInPast))
    } else {
        match record_pda(framework_address, issuer, asset_address) {
            None => (reg, Err(TrustErrorCode::AddressUnderivable)),
            Some((address, bump)) => {
                if reg.contains_key(address) {
                    (reg, Err(TrustErrorCode::AddressAlreadyInUse))
                } else {
                    (
                        reg.insert(
                            address,
                            EntityV::Record(
                                TrustRecordV {
                                    framework: framework_address,
                                    issuer,
                                    target_asset: asset_address,
                                    trust_score,
                                    evidence,
                                    is_active: true,
                                    issued_at: now,
                                    expires_at,
                                    bump,
                                },
                            ),
                        ),
                        Ok(()),
                    )
                }
            },
        }
    }
}

/// The state transition of [`Registry::update_trust_framework`]: the store
/// after the call together with the operation's result. Only the framework's
/// stored authority may update it; each supplied field is validated against
/// its bound; then exactly the supplied fields are replaced, atomically —
/// any failure leaves the store unchanged.
pub open spec fn spec_update_trust_framework(
    reg: Map<Seq<u8>, EntityV>,
    caller: Seq<u8>,
    address: Seq<u8>,
    name: Option<Seq<char>>,
    description: Option<Seq<char>>,
    criteria: Option<Seq<Seq<char>>>,
    is_active: Option<bool>,
) -> (Map<Seq<u8>, EntityV>, Result<(), UpdateErrorCode>)
    recommends
        holds_framework(reg, address),
{
    match reg[address] {
        EntityV::Framework(f) => {
            if f.authority != caller {
                (reg, Err(UpdateErrorCode::Unauthorized))
            } else if opt_too_long(name, FRAMEWORK_MAX_NAME_LEN as int) {
                (reg, Err(UpdateErrorCode::NameTooLong))
            } else if opt_too_long(description, FRAMEWORK_MAX_DESCRIPTION_LEN as int) {
                (reg, Err(UpdateErrorCode::DescriptionTooLong))
            } else if (match criteria {
                Some(c) => c.len() > FRAMEWORK_MAX_CRITERIA_COUNT,
                None => false,
            }) {
                (reg, Err(UpdateErrorCode::TooManyCriteria))
            } else if (match criteria {
                Some(c) => any_criterion_too_long(c),
                None => false,
            }) {
                (reg, Err(UpdateErrorCode::CriteriaTooLong))
            } else {
                (
                    reg.insert(
                        address,
                        EntityV::Framework(
                            TrustFrameworkV {
                                authority: f.authority,
                                framework_id: f.framework_id,
                                name: match name {
                                    Some(n) => n,
                                    None => f.name,
                                },
                                description: match description {
                                    Some(d) => d,
                                    None => f.description,
                                },
                                criteria: match criteria {
                                    Some(c) => c,
                                    None => f.criteria,
                                },
                                is_active: match is_active {
                                    Some(b) => b,
                                    None => f.is_active,
                                },
                                created_at: f.created_at,
                                bump: f.bump,
                            },
                        ),
                    ),
                    Ok(()),
                )
            }
        },
        _ => (reg, Err(UpdateErrorCode::Unauthorized)),
    }
}

impl Registry {
    /// The position of the slot keyed by `address`, if occupied.
    fn find_index(&self, address: &Vec<u8>) -> (r: Option<usize>)
        ensures
            match r {
                Some(i) => i < self.entries@.len() && self.entries@[i as int].0@ == address@,
                None => forall|i: int|
                    0 <= i < self.entries@.len() ==> self.entries@[i].0@ != address@,
            },
    {
        let mut i: usize = 0;
        while i < self.entries.len()
            invariant
                i <= self.entries@.len(),
                forall|j: int| 0 <= j < i ==> self.entries@[j].0@ != address@,
            decreases self.entries@.len() - i,
        {
            if bytes_equal(&self.entries[i].0, address) {
                return Some(i);
            }
            i = i + 1;
        }
        None
    }

    /// The entity at an address, if the address is occupied.
    pub fn lookup(&self, address: &Vec<u8>) -> (r: Option<&Entity>)
        requires
            self.wf(),
        ensures
            match r {
                Some(e) => self@.contains_key(address@) && e@ == self@[address@],
                None => !self@.contains_key(address@),
            },
    {
        proof {
            lemma_entries_map_contains(self.entries@);
        }
        match self.find_index(address) {
            Some(i) => {
                proof {
                    lemma_entries_map_index(self.entries@, i as int);
                }
                Some(&self.entries[i].1)
            },
            None => None,
        }
    }

    /// Whether `address` holds an active trust framework.
    pub fn framework_is_active(&self, address: &Vec<u8>) -> (r: bool)
        requires
            self.wf(),
        ensures
            r == framework_active(self@, address@),
    {
        match self.lookup(address) {
            Some(Entity::Framework(f)) => f.is_active,
            _ => false,
        }
    }

    /// Whether `address` holds an active asset profile.
    pub fn asset_is_active(&self, address: &Vec<u8>) -> (r: bool)
        requires
            self.wf(),
        ensures
            r == asset_active(self@, address@),
    {
        match self.lookup(address) {
            Some(Entity::Asset(a)) => a.is_active,
            _ => false,
        }
    }

    /// Publishes a new trust framework under the caller's authority. The
    /// framework is committed, active, at the address derived from
    /// (authority, framework id); a second creation with the same key fields
    /// finds that address occupied and fails.
    #[verifier::loop_isolation(false)]
    pub fn create_trust_framework(
        &mut self,
        authority: &Vec<u8>,
        framework_id: u64,
        name: String,
        description: String,
        criteria: Vec<String>,
        now: i64,
    ) -> (r: Result<(), ErrorCode>)
        requires
            old(self).wf(),
        ensures
            final(self).wf(),
            ({
                let (m, res) = spec_create_trust_framework(
                    old(self)@,
                    authority@,
                    framework_id,
                    name@,
                    description@,
                    criteria.deep_view(),
                    now,
                );
                final(self)@ == m && r == res
            }),
    {
        if name.as_str().unicode_len() > FRAMEWORK_MAX_NAME_LEN {
            return Err(ErrorCode::NameTooLong);
        }
        if description.as_str().unicode_len() > FRAMEWORK_MAX_DESCRIPTION_LEN {
            return Err(ErrorCode::DescriptionTooLong);
        }
        if criteria.len() > FRAMEWORK_MAX_CRITERIA_COUNT {
            return Err(ErrorCode::TooManyCriteria);
        }
        let mut i: usize = 0;
        while i < criteria.len()
            invariant
                i <= criteria@.len(),
                forall|j: int|
                    0 <= j < i ==> criteria.deep_view()[j].len() <= FRAMEWORK_MAX_CRITERIA_LEN,
            decreases criteria@.len() - i,
        {
            if criteria[i].as_str().unicode_len() > FRAMEWORK_MAX_CRITERIA_LEN {
                proof {
                    assert(criteria.deep_view()[i as int].len() > FRAMEWORK_MAX_CRITERIA_LEN);
                }
                return Err(ErrorCode::CriteriaTooLong);
            }
            i = i + 1;
        }
        proof {
            assert(!any_criterion_too_long(criteria.deep_view()));
        }
        match derive_framework_address(authority, framework_id) {
            None => Err(ErrorCode::AddressUnderivable),
            Some((address, bump)) => {
                proof {
                    assert(address.deep_view() =~= address@);
                    assert(framework_pda(authority@, framework_id) == Some((address@, bump)));
                    lemma_entries_map_contains(self.entries@);
                }
                match self.find_index(&address) {
                    Some(_) => Err(ErrorCode::AddressAlreadyInUse),
                    None => {
                        let ghost old_entries = self.entries@;
                        let framework = TrustFramework {
                            authority: copy_bytes(authority),
                            framework_id,
                            name,
                            description,
                            criteria,
                            is_active: true,
                            created_at: now,
                            bump,
                        };
                        self.entries.push((address, Entity::Framework(framework)));
                        proof {
                            assert(self.entries@.drop_last() =~= old_entries);
                            assert(forall|j: int|
                                0 <= j < old_entries.len() ==> old_entries[j]
                                    == self.entries@[j]);
                            assert(self.wf());
                            assert(self@ =~= entries_map(old_entries).insert(
                                self.entries@.last().0@,
                                self.entries@.last().1@,
                            ));
                        }
                        Ok(())
                    },
                }
            },
        }
    }

    /// Records a new asset profile under the caller's ownership. The profile
    /// is committed, active, at the address derived from (owner, asset id);
    /// a second creation with the same key fields finds that address
    /// occupied and fails.
    pub fn create_asset_profile(
        &mut self,
        owner: &Vec<u8>,
        asset_id: u64,
        name: String,
        description: String,
        asset_type: AssetType,
        metadata_uri: Option<String>,
        now: i64,
    ) -> (r: Result<(), AssetErrorCode>)
        requires
            old(self).wf(),
        ensures
            final(self).wf(),
            ({
                let (m, res) = spec_create_asset_profile(
                    old(self)@,
                    owner@,
                    asset_id,
                    name@,
                    description@,
                    asset_type,
                    metadata_uri.deep_view(),
                    now,
                );
                final(self)@ == m && r == res
            }),
    {
        if name.as_str().unicode_len() > ASSET_MAX_NAME_LEN {
            return Err(AssetErrorCode::NameTooLong);
        }
        if description.as_str().unicode_len() > ASSET_MAX_DESCRIPTION_LEN {
            return Err(AssetErrorCode::DescriptionTooLong);
        }
        if let Some(uri) = &metadata_uri {
            if uri.as_str().unicode_len() > ASSET_MAX_METADATA_URI_LEN {
                return Err(AssetErrorCode::MetadataUriTooLong);
            }
        }
        match derive_asset_address(owner, asset_id) {
            None => Err(AssetErrorCode::AddressUnderivable),
            Some((address, bump)) => {
                proof {
                    assert(address.deep_view() =~= address@);
                    assert(asset_pda(owner@, asset_id) == Some((address@, bump)));
                    lemma_entries_map_contains(self.entries@);
                }
                match self.find_index(&address) {
                    Some(_) => Err(AssetErrorCode::AddressAlreadyInUse),
                    None => {
                        let ghost old_entries = self.entries@;
                        let profile = AssetProfile {
                            owner: copy_bytes(owner),
                            asset_id,
                            name,
                            description,
                            asset_type,
                            metadata_uri,
                            is_active: true,
                            created_at: now,
                            bump,
                        };
                        self.entries.push((address, Entity::Asset(profile)));
                        proof {
                            assert(self.entries@.drop_last() =~= old_entries);
                            assert(forall|j: int|
                                0 <= j < old_entries.len() ==> old_entries[j]
                                    == self.entries@[j]);
                            assert(self.wf());
                            assert(self@ =~= entries_map(old_entries).insert(
                                self.entries@.last().0@,
                                self.entries@.last().1@,
                            ));
                        }
                        Ok(())
                    },
                }
            },
        }
    }

    /// Issues a trust attestation: the caller asserts a trust score about an
    /// existing active asset profile under an existing active trust
    /// framework, with free-text evidence and an optional expiry strictly in
    /// the future. The record is committed, active, at the address derived
    /// from (framework, issuer, asset), so at most one record exists per
    /// triple; a repeated issuance finds that address occupied and fails.
    pub fn issue_trust(
        &mut self,
        issuer: &Vec<u8>,
        framework_address: &Vec<u8>,
        asset_address: &Vec<u8>,
        trust_score: u8,
        evidence: String,
        expires_at: Option<i64>,
        now: i64,
    ) -> (r: Result<(), TrustErrorCode>)
        requires
            old(self).wf(),
        ensures
            final(self).wf(),
            ({
                let (m, res) = spec_issue_trust(
                    old(self)@,
                    issuer@,
                    framework_address@,
                    asset_address@,
                    trust_score,
                    evidence@,
                    expires_at,
                    now,
                );
                final(self)@ == m && r == res
            }),
    {
        if !self.framework_is_active(framework_address) {
            return Err(TrustErrorCode::FrameworkInactive);
        }
        if !self.asset_is_active(asset_address) {
            return Err(TrustErrorCode::AssetInactive);
        }
        if trust_score > MAX_TRUST_SCORE {
            return Err(TrustErrorCode::InvalidTrustScore);
        }
        if evidence.as_str().unicode_len() > RECORD_MAX_EVIDENCE_LEN {
            return Err(TrustErrorCode::EvidenceTooLong);
        }
        if let Some(expiry) = expires_at {
            if expiry <= now {
                return Err(TrustErrorCode::ExpiryInPast);
            }
        }
        match derive_record_address(framework_address, issuer, asset_address) {
            None => Err(TrustErrorCode::AddressUnderivable),
            Some((address, bump)) => {
                proof {
                    assert(address.deep_view() =~= address@);
                    assert(record_pda(framework_address@, issuer@, asset_address@) == Some(
                        (address@, bump),
                    ));
                    lemma_entries_map_contains(self.entries@);
                }
                match self.find_index(&address) {
                    Some(_) => Err(TrustErrorCode::AddressAlreadyInUse),
                    None => {
                        let ghost old_entries = self.entries@;
                        let record = TrustRecord {
                            framework: copy_bytes(framework_address),
                            issuer: copy_bytes(issuer),
                            target_asset: copy_bytes(asset_address),
                            trust_score,
                            evidence,
                            is_active: true,
                            issued_at: now,
                            expires_at,
                            bump,
                        };
                        self.entries.push((address, Entity::Record(record)));
                        proof {
                            assert(self.entries@.drop_last() =~= old_entries);
                            assert(forall|j: int|
                                0 <= j < old_entries.len() ==> old_entries[j]
                                    == self.entries@[j]);
                            assert(self.wf());
                            assert(self@ =~= entries_map(old_entries).insert(
                                self.entries@.last().0@,
                                self.entries@.last().1@,
                            ));
                        }
                        Ok(())
                    },
                }
            },
        }
    }

    /// Applies a sparse partial update to an existing trust framework: only
    /// the supplied fields are validated and replaced; absent fields stay
    /// untouched. Only the framework's stored authority may update it, and a
    /// failing call leaves the store unchanged.
    #[verifier::loop_isolation(false)]
    pub fn update_trust_framework(
        &mut self,
        authority: &Vec<u8>,
        framework_address: &Vec<u8>,
        name: Option<String>,
        description: Option<String>,
        criteria: Option<Vec<String>>,
        is_active: Option<bool>,
    ) -> (r: Result<(), UpdateErrorCode>)
        requires
            old(self).wf(),
            holds_framework(old(self)@, framework_address@),
        ensures
            final(self).wf(),
            ({
                let (m, res) = spec_update_trust_framework(
                    old(self)@,
                    authority@,
                    framework_address@,
                    name.deep_view(),
                    description.deep_view(),
                    criteria.deep_view(),
                    is_active,
                );
                final(self)@ == m && r == res
            }),
    {
        proof {
            lemma_entries_map_contains(self.entries@);
        }
        let idx = match self.find_index(framework_address) {
            Some(i) => i,
            None => unreached(),
        };
        proof {
            lemma_entries_map_index(self.entries@, idx as int);
        }
        match &self.entries[idx].1 {
            Entity::Framework(f) => {
                if !bytes_equal(authority, &f.authority) {
                    return Err(UpdateErrorCode::Unauthorized);
                }
            },
            _ => {
                return unreached();
            },
        }
        if let Some(n) = &name {
            if n.as_str().unicode_len() > FRAMEWORK_MAX_NAME_LEN {
                return Err(UpdateErrorCode::NameTooLong);
            }
        }
        if let Some(d) = &description {
            if d.as_str().unicode_len() > FRAMEWORK_MAX_DESCRIPTION_LEN {
                return Err(UpdateErrorCode::DescriptionTooLong);
            }
        }
        if let Some(c) = &criteria {
            if c.len() > FRAMEWORK_MAX_CRITERIA_COUNT {
                return Err(UpdateErrorCode::TooManyCriteria);
            }
            let mut i: usize = 0;
            while i < c.len()
                invariant
                    i <= c@.len(),
                    forall|j: int|
                        0 <= j < i ==> c.deep_view()[j].len() <= FRAMEWORK_MAX_CRITERIA_LEN,
                decreases c@.len() - i,
            {
                if c[i].as_str().unicode_len() > FRAMEWORK_MAX_CRITERIA_LEN {
                    proof {
                        assert(c.deep_view()[i as int].len() > FRAMEWORK_MAX_CRITERIA_LEN);
                    }
                    return Err(UpdateErrorCode::CriteriaTooLong);
                }
                i = i + 1;
            }
            proof {
                assert(!any_criterion_too_long(c.deep_view()));
            }
        }
        // Every check passed: replace exactly the supplied fields, in place.
        let ghost old_entries = self.entries@;
        let (slot_address, entity) = self.entries.remove(idx);
        let f = match entity {
            Entity::Framework(f) => f,
            _ => unreached(),
        };
        let updated = TrustFramework {
            authority: f.authority,
            framework_id: f.framework_id,
            name: match name {
                Some(n) => n,
                None => f.name,
            },
            description: match description {
                Some(d) => d,
                None => f.description,
            },
            criteria: match criteria {
                Some(c) => c,
                None => f.criteria,
            },
            is_active: match is_active {
                Some(b) => b,
                None => f.is_active,
            },
            created_at: f.created_at,
            bump: f.bump,
        };
        self.entries.insert(idx, (slot_address, Entity::Framework(updated)));
        proof {
            assert(self.entries@ =~= old_entries.update(idx as int, self.entries@[idx as int]));
            assert(self.entries@[idx as int].0@ == old_entries[idx as int].0@);
            lemma_entries_map_update(old_entries, idx as int, self.entries@[idx as int]);
            assert(distinct_keys(self.entries@)) by {
                assert(forall|j: int|
                    0 <= j < old_entries.len() ==> self.entries@[j].0@ == old_entries[j].0@);
            }
            assert(self@ =~= spec_update_trust_framework(
                entries_map(old_entries),
                authority@,
                framework_address@,
                name.deep_view(),
                description.deep_view(),
                criteria.deep_view(),
                is_active,
            ).0);
        }
        Ok(())
    }
}

/// Byte-for-byte equality of two byte strings.
fn bytes_equal(a: &Vec<u8>, b: &Vec<u8>) -> (r: bool)
    ensures
        r == (a@ == b@),
{
    if a.len() != b.len() {
        return false;
    }
    let mut i: usize = 0;
    while i < a.len()
        invariant
            a@.len() == b@.len(),
            i <= a@.len(),
            forall|j: int| 0 <= j < i ==> a@[j] == b@[j],
        decreases a@.len() - i,
    {
        if a[i] != b[i] {
            return false;
        }
        i = i + 1;
    }
    proof {
        assert(a@ =~= b@);
    }
    true
}

} // verus!
