//! Deterministic address derivation. A storage address is computed from a
//! fixed component list — a type tag plus the entity's key fields — through
//! the host's collision-resistant program-derived-address function, which
//! also yields a proof byte (the "bump") confirming the address is a valid
//! storage slot. Re-deriving from the stored key fields reproduces the same
//! address and bump, which makes the address space itself the uniqueness
//! mechanism for every entity.

use vstd::bytes::spec_u64_to_le_bytes;
use vstd::bytes::u64_to_le_bytes;
use vstd::prelude::*;

verus! {

/// The storage address and bump seed that the host's program-derived-address
/// function yields for a seed list under a program id, or `None` in the
/// statistically improbable event that no bump seed yields a valid slot. The
/// result is a function of the two arguments alone.
pub uninterp spec fn pda_of(seeds: Seq<Seq<u8>>, program_id: Seq<u8>) -> Option<(Seq<u8>, u8)>;

/// Relies on anchor_lang's `Pubkey::try_find_program_address`: its result
/// depends on the seed slices and the program id alone, and on success it is
/// the derived 32-byte address with the bump seed that made it valid.
#[verifier::external_body]
fn try_find_pda(seeds: &Vec<Vec<u8>>, program_id: &Vec<u8>) -> (r: Option<(Vec<u8>, u8)>)
    requires
        program_id@.len() == 32,
    ensures
        r.deep_view() == pda_of(seeds.deep_view(), program_id@),
{
    let mut pid_bytes = [0u8; 32];
    pid_bytes.copy_from_slice(program_id.as_slice());
    let pid = anchor_lang::prelude::Pubkey::new_from_array(pid_bytes);
    let seed_refs: Vec<&[u8]> = seeds.iter().map(|s| s.as_slice()).collect();
    anchor_lang::prelude::Pubkey::try_find_program_address(&seed_refs, &pid)
        .map(|(a, b)| (a.to_bytes().to_vec(), b))
}

/// The id of the registry program that every address is derived under.
pub open spec fn spec_program_id() -> Seq<u8> {
    seq![
        148u8, 164u8, 176u8, 9u8, 207u8, 237u8, 249u8, 100u8, 182u8, 130u8, 198u8, 83u8, 109u8,
        28u8, 111u8, 218u8, 15u8, 194u8, 5u8, 100u8, 8u8, 218u8, 21u8, 172u8, 167u8, 140u8, 48u8,
        253u8, 246u8, 72u8, 201u8, 113u8,
    ]
}

/// Type tag of trust framework addresses: the bytes of "trust_framework".
pub open spec fn framework_tag() -> Seq<u8> {
    seq![
        116u8, 114u8, 117u8, 115u8, 116u8, 95u8, 102u8, 114u8, 97u8, 109u8, 101u8, 119u8, 111u8,
        114u8, 107u8,
    ]
}

/// Type tag of asset profile addresses: the bytes of "asset_profile".
pub open spec fn asset_tag() -> Seq<u8> {
    seq![97u8, 115u8, 115u8, 101u8, 116u8, 95u8, 112u8, 114u8, 111u8, 102u8, 105u8, 108u8, 101u8]
}

/// Type tag of trust record addresses: the bytes of "trust_record".
pub open spec fn record_tag() -> Seq<u8> {
    seq![116u8, 114u8, 117u8, 115u8, 116u8, 95u8, 114u8, 101u8, 99u8, 111u8, 114u8, 100u8]
}

/// Seed components of a trust framework's address.
pub open spec fn framework_seeds(authority: Seq<u8>, framework_id: u64) -> Seq<Seq<u8>> {
    seq![framework_tag(), authority, spec_u64_to_le_bytes(framework_id)]
}

/// Seed components of an asset profile's address.
pub open spec fn asset_seeds(owner: Seq<u8>, asset_id: u64) -> Seq<Seq<u8>> {
    seq![asset_tag(), owner, spec_u64_to_le_bytes(asset_id)]
}

/// Seed components of a trust record's address.
pub open spec fn record_seeds(framework: Seq<u8>, issuer: Seq<u8>, target_asset: Seq<u8>) -> Seq<
    Seq<u8>,
> {
    seq![record_tag(), framework, issuer, target_asset]
}

/// The derived address and bump of the trust framework keyed by
/// (authority, framework id).
pub open spec fn framework_pda(authority: Seq<u8>, framework_id: u64) -> Option<(Seq<u8>, u8)> {
    pda_of(framework_seeds(authority, framework_id), spec_program_id())
}

/// The derived address and bump of the asset profile keyed by
/// (owner, asset id).
pub open spec fn asset_pda(owner: Seq<u8>, asset_id: u64) -> Option<(Seq<u8>, u8)> {
    pda_of(asset_seeds(owner, asset_id), spec_program_id())
}

/// The derived address and bump of the trust record keyed by
/// (framework address, issuer, asset address).
pub open spec fn record_pda(framework: Seq<u8>, issuer: Seq<u8>, target_asset: Seq<u8>) -> Option<
    (Seq<u8>, u8),
> {
    pda_of(record_seeds(framework, issuer, target_asset), spec_program_id())
}

/// A fresh copy of a byte string.
pub fn copy_bytes(v: &Vec<u8>) -> (r: Vec<u8>)
    ensures
        r@ == v@,
{
    let mut r: Vec<u8> = Vec::new();
    let mut i: usize = 0;
    while i < v.len()
        invariant
            i <= v@.len(),
            r@ == v@.subrange(0, i as int),
        decreases v@.len() - i,
    {
        r.push(v[i]);
        i = i + 1;
        proof {
            assert(r@ =~= v@.subrange(0, i as int));
        }
    }
    proof {
        assert(r@ =~= v@);
    }
    r
}

/// The program id as bytes.
fn program_id_bytes() -> (r: Vec<u8>)
    ensures
        r@ == spec_program_id(),
{
    let r: Vec<u8> = vec![
        148u8, 164u8, 176u8, 9u8, 207u8, 237u8, 249u8, 100u8, 182u8, 130u8, 198u8, 83u8, 109u8,
        28u8, 111u8, 218u8, 15u8, 194u8, 5u8, 100u8, 8u8, 218u8, 21u8, 172u8, 167u8, 140u8, 48u8,
        253u8, 246u8, 72u8, 201u8, 113u8,
    ];
    proof {
        assert(r@ =~= spec_program_id());
    }
    r
}

/// The trust framework type tag as bytes.
fn framework_tag_bytes() -> (r: Vec<u8>)
    ensures
        r@ == framework_tag(),
{
    let r: Vec<u8> = vec![
        116u8, 114u8, 117u8, 115u8, 116u8, 95u8, 102u8, 114u8, 97u8, 109u8, 101u8, 119u8, 111u8,
        114u8, 107u8,
    ];
    proof {
        assert(r@ =~= framework_tag());
    }
    r
}

/// The asset profile type tag as bytes.
fn asset_tag_bytes() -> (r: Vec<u8>)
    ensures
        r@ == asset_tag(),
{
    let r: Vec<u8> = vec![
        97u8, 115u8, 115u8, 101u8, 116u8, 95u8, 112u8, 114u8, 111u8, 102u8, 105u8, 108u8, 101u8,
    ];
    proof {
        assert(r@ =~= asset_tag());
    }
    r
}

/// The trust record type tag as bytes.
fn record_tag_bytes() -> (r: Vec<u8>)
    ensures
        r@ == record_tag(),
{
    let r: Vec<u8> = vec![
        116u8, 114u8, 117u8, 115u8, 116u8, 95u8, 114u8, 101u8, 99u8, 111u8, 114u8, 100u8,
    ];
    proof {
        assert(r@ =~= record_tag());
    }
    r
}

/// Derives the storage address and bump of the trust framework keyed by
/// (authority, framework id).
pub fn derive_framework_address(authority: &Vec<u8>, framework_id: u64) -> (r: Option<
    (Vec<u8>, u8),
>)
    ensures
        r.deep_view() == framework_pda(authority@, framework_id),
{
    let mut seeds: Vec<Vec<u8>> = Vec::new();
    seeds.push(framework_tag_bytes());
    seeds.push(copy_bytes(authority));
    seeds.push(u64_to_le_bytes(framework_id));
    proof {
        assert(seeds.deep_view() =~~= framework_seeds(authority@, framework_id));
    }
    try_find_pda(&seeds, &program_id_bytes())
}

/// Derives the storage address and bump of the asset profile keyed by
/// (owner, asset id).
pub fn derive_asset_address(owner: &Vec<u8>, asset_id: u64) -> (r: Option<(Vec<u8>, u8)>)
    ensures
        r.deep_view() == asset_pda(owner@, asset_id),
{
    let mut seeds: Vec<Vec<u8>> = Vec::new();
    seeds.push(asset_tag_bytes());
    seeds.push(copy_bytes(owner));
    seeds.push(u64_to_le_bytes(asset_id));
    proof {
        assert(seeds.deep_view() =~~= asset_seeds(owner@, asset_id));
    }
    try_find_pda(&seeds, &program_id_bytes())
}

/// Derives the storage address and bump of the trust record keyed by
/// (framework address, issuer, asset address).
pub fn derive_record_address(framework: &Vec<u8>, issuer: &Vec<u8>, target_asset: &Vec<u8>) -> (r:
    Option<(Vec<u8>, u8)>)
    ensures
        r.deep_view() == record_pda(framework@, issuer@, target_asset@),
{
    let mut seeds: Vec<Vec<u8>> = Vec::new();
    seeds.push(record_tag_bytes());
    seeds.push(copy_bytes(framework));
    seeds.push(copy_bytes(issuer));
    seeds.push(copy_bytes(target_asset));
    proof {
        assert(seeds.deep_view() =~~= record_seeds(framework@, issuer@, target_asset@));
    }
    try_find_pda(&seeds, &program_id_bytes())
}

} // verus!
