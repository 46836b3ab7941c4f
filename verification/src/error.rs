//! Failure modes of the registry operations. Every error is a validation or
//! precondition failure detected before any write: a failing operation
//! commits nothing.

use vstd::prelude::*;

verus! {

/// Failure modes of `create_trust_framework`.
#[derive(Clone, Copy, Debug, PartialEq, Eq, Structural)]
pub enum ErrorCode {
    /// The framework name is over its maximum length.
    NameTooLong,
    /// The framework description is over its maximum length.
    DescriptionTooLong,
    /// The criteria list has more entries than its maximum.
    TooManyCriteria,
    /// A single criterion is over its maximum length.
    CriteriaTooLong,
    /// No storage address can be derived from these key fields.
    /// No practical input reaches this: the derivation fails only in the
    /// statistically improbable event that no bump seed yields a valid slot.
    AddressUnderivable,
    /// The derived address already holds an entity: the (authority,
    /// framework id) pair was used before.
    AddressAlreadyInUse,
}

/// Failure modes of `create_asset_profile`.
#[derive(Clone, Copy, Debug, PartialEq, Eq, Structural)]
pub enum AssetErrorCode {
    /// The asset name is over its maximum length.
    NameTooLong,
    /// The asset description is over its maximum length.
    DescriptionTooLong,
    /// The metadata URI is over its maximum length.
    MetadataUriTooLong,
    /// No storage address can be derived from these key fields.
    /// No practical input reaches this: the derivation fails only in the
    /// statistically improbable event that no bump seed yields a valid slot.
    AddressUnderivable,
    /// The derived address already holds an entity: the (owner, asset id)
    /// pair was used before.
    AddressAlreadyInUse,
}

/// Failure modes of `issue_trust`.
#[derive(Clone, Copy, Debug, PartialEq, Eq, Structural)]
pub enum TrustErrorCode {
    /// The referenced address holds no active trust framework.
    FrameworkInactive,
    /// The referenced address holds no active asset profile.
    AssetInactive,
    /// The trust score is over 100.
    InvalidTrustScore,
    /// The evidence text is over its maximum length.
    EvidenceTooLong,
    /// The supplied expiry is not strictly in the future.
    ExpiryInPast,
    /// No storage address can be derived from these key fields.
    /// No practical input reaches this: the derivation fails only in the
    /// statistically improbable event that no bump seed yields a valid slot.
    AddressUnderivable,
    /// The derived address already holds an entity: the (framework, issuer,
    /// asset) triple was attested before.
    AddressAlreadyInUse,
}

/// Failure modes of `update_trust_framework`.
#[derive(Clone, Copy, Debug, PartialEq, Eq, Structural)]
pub enum UpdateErrorCode {
    /// The caller is not the framework's stored authority.
    Unauthorized,
    /// The new framework name is over its maximum length.
    NameTooLong,
    /// The new framework description is over its maximum length.
    DescriptionTooLong,
    /// The new criteria list has more entries than its maximum.
    TooManyCriteria,
    /// A single new criterion is over its maximum length.
    CriteriaTooLong,
}

} // verus!
