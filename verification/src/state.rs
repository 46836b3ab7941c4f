//! The three persistent entity types and their field bounds. Each entity
//! reserves a fixed serialized capacity, so every variable-length field is
//! validated against its declared maximum at write time, never truncated.

use vstd::prelude::*;

verus! {

/// Maximum length, in characters, of a trust framework's name.
pub const FRAMEWORK_MAX_NAME_LEN: usize = 50;

/// Maximum length, in characters, of a trust framework's description.
pub const FRAMEWORK_MAX_DESCRIPTION_LEN: usize = 200;

/// Maximum number of criteria a trust framework may list.
pub const FRAMEWORK_MAX_CRITERIA_COUNT: usize = 10;

/// Maximum length, in characters, of a single criterion.
pub const FRAMEWORK_MAX_CRITERIA_LEN: usize = 100;

/// Maximum length, in characters, of an asset profile's name.
pub const ASSET_MAX_NAME_LEN: usize = 100;

/// Maximum length, in characters, of an asset profile's description.
pub const ASSET_MAX_DESCRIPTION_LEN: usize = 300;

/// Maximum length, in characters, of an asset profile's metadata URI.
pub const ASSET_MAX_METADATA_URI_LEN: usize = 200;

/// Maximum length, in characters, of a trust record's evidence text.
pub const RECORD_MAX_EVIDENCE_LEN: usize = 500;

/// Highest admissible trust score.
pub const MAX_TRUST_SCORE: u8 = 100;

/// Serialized capacity reserved for a trust framework: a type discriminator,
/// each fixed-width field, and each variable-length field at its declared
/// maximum behind a length prefix.
pub const FRAMEWORK_SPACE: usize = 8 + 32 + 8 + (4 + 50) + (4 + 200) + (4 + (4 + 100) * 10) + 1
    + 8 + 1;

/// Serialized capacity reserved for an asset profile.
pub const ASSET_SPACE: usize = 8 + 32 + 8 + (4 + 100) + (4 + 300) + 1 + (1 + 4 + 200) + 1 + 8 + 1;

/// Serialized capacity reserved for a trust record.
pub const RECORD_SPACE: usize = 8 + 32 + 32 + 32 + 1 + (4 + 500) + 1 + 8 + (1 + 8) + 1;

/// The kind of asset an asset profile describes.
#[derive(Clone, Copy, Debug, PartialEq, Eq, Structural)]
pub enum AssetType {
    Business,
    RealEstate,
    Intellectual,
    Digital,
    Other,
}

/// A named set of trust criteria published by an authority. Created once;
/// mutated only by its authority; deactivation is the only removal.
pub struct TrustFramework {
    /// Principal identity of the framework's publisher.
    pub authority: Vec<u8>,
    /// Framework identifier, unique per authority.
    pub framework_id: u64,
    pub name: String,
    pub description: String,
    pub criteria: Vec<String>,
    pub is_active: bool,
    pub created_at: i64,
    /// Derivation proof: the bump seed that made the storage address valid.
    pub bump: u8,
}

/// The mathematical value of a [`TrustFramework`].
#[verifier::ext_equal]
pub ghost struct TrustFrameworkV {
    pub authority: Seq<u8>,
    pub framework_id: u64,
    pub name: Seq<char>,
    pub description: Seq<char>,
    pub criteria: Seq<Seq<char>>,
    pub is_active: bool,
    pub created_at: i64,
    pub bump: u8,
}

impl View for TrustFramework {
    type V = TrustFrameworkV;

    open spec fn view(&self) -> TrustFrameworkV {
        TrustFrameworkV {
            authority: self.authority@,
            framework_id: self.framework_id,
            name: self.name@,
            description: self.description@,
            criteria: self.criteria.deep_view(),
            is_active: self.is_active,
            created_at: self.created_at,
            bump: self.bump,
        }
    }
}

/// A description of a real-world or digital asset owned by a principal.
/// Created once; immutable afterwards in this core.
pub struct AssetProfile {
    /// Principal identity of the asset's owner.
    pub owner: Vec<u8>,
    /// Asset identifier, unique per owner.
    pub asset_id: u64,
    pub name: String,
    pub description: String,
    pub asset_type: AssetType,
    pub metadata_uri: Option<String>,
    pub is_active: bool,
    pub created_at: i64,
    /// Derivation proof: the bump seed that made the storage address valid.
    pub bump: u8,
}

/// The mathematical value of an [`AssetProfile`].
#[verifier::ext_equal]
pub ghost struct AssetProfileV {
    pub owner: Seq<u8>,
    pub asset_id: u64,
    pub name: Seq<char>,
    pub description: Seq<char>,
    pub asset_type: AssetType,
    pub metadata_uri: Option<Seq<char>>,
    pub is_active: bool,
    pub created_at: i64,
    pub bump: u8,
}

impl View for AssetProfile {
    type V = AssetProfileV;

    open spec fn view(&self) -> AssetProfileV {
        AssetProfileV {
            owner: self.owner@,
            asset_id: self.asset_id,
            name: self.name@,
            description: self.description@,
            asset_type: self.asset_type,
            metadata_uri: self.metadata_uri.deep_view(),
            is_active: self.is_active,
            created_at: self.created_at,
            bump: self.bump,
        }
    }
}

/// An issuer's attestation, under a framework, about an asset. Created once;
/// this core defines no update or revocation for it.
pub struct TrustRecord {
    /// Address of the trust framework the attestation is issued under.
    pub framework: Vec<u8>,
    /// Principal identity of the issuer.
    pub issuer: Vec<u8>,
    /// Address of the attested asset profile.
    pub target_asset: Vec<u8>,
    /// Trust score, 0 to 100 inclusive.
    pub trust_score: u8,
    pub evidence: String,
    pub is_active: bool,
    pub issued_at: i64,
    /// Optional expiry; strictly in the future at issuance.
    pub expires_at: Option<i64>,
    /// Derivation proof: the bump seed that made the storage address valid.
    pub bump: u8,
}

/// The mathematical value of a [`TrustRecord`].
#[verifier::ext_equal]
pub ghost struct TrustRecordV {
    pub framework: Seq<u8>,
    pub issuer: Seq<u8>,
    pub target_asset: Seq<u8>,
    pub trust_score: u8,
    pub evidence: Seq<char>,
    pub is_active: bool,
    pub issued_at: i64,
    pub expires_at: Option<i64>,
    pub bump: u8,
}

impl View for TrustRecord {
    type V = TrustRecordV;

    open spec fn view(&self) -> TrustRecordV {
        TrustRecordV {
            framework: self.framework@,
            issuer: self.issuer@,
            target_asset: self.target_asset@,
            trust_score: self.trust_score,
            evidence: self.evidence@,
            is_active: self.is_active,
            issued_at: self.issued_at,
            expires_at: self.expires_at,
            bump: self.bump,
        }
    }
}

} // verus!
