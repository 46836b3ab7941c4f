use daviz::addr::derive_asset_address;
use daviz::addr::derive_framework_address;
use daviz::addr::derive_record_address;
use daviz::error::AssetErrorCode;
use daviz::error::ErrorCode;
use daviz::error::TrustErrorCode;
use daviz::error::UpdateErrorCode;
use daviz::registry::Entity;
use daviz::registry::Registry;
use daviz::state::AssetType;

const NOW: i64 = 1_700_000_000;

fn principal(tag: u8) -> Vec<u8> {
    vec![tag; 32]
}

fn framework_at(reg: &Registry, address: &Vec<u8>) -> daviz::state::TrustFramework {
    match reg.lookup(address) {
        Some(Entity::Framework(f)) => daviz::state::TrustFramework {
            authority: f.authority.clone(),
            framework_id: f.framework_id,
            name: f.name.clone(),
            description: f.description.clone(),
            criteria: f.criteria.clone(),
            is_active: f.is_active,
            created_at: f.created_at,
            bump: f.bump,
        },
        _ => panic!("no framework at that address"),
    }
}

fn setup_framework(reg: &mut Registry, authority: &Vec<u8>, id: u64) -> Vec<u8> {
    reg.create_trust_framework(
        authority,
        id,
        "KYC".to_string(),
        "identity checks".to_string(),
        vec!["id_check".to_string()],
        NOW,
    )
    .expect("framework creation succeeds");
    derive_framework_address(authority, id).expect("derivable").0
}

fn setup_asset(reg: &mut Registry, owner: &Vec<u8>, id: u64) -> Vec<u8> {
    reg.create_asset_profile(
        owner,
        id,
        "Acme".to_string(),
        "a business".to_string(),
        AssetType::Business,
        None,
        NOW,
    )
    .expect("asset creation succeeds");
    derive_asset_address(owner, id).expect("derivable").0
}

#[test]
fn full_attestation_scenario() {
    let mut reg = Registry::new();
    let authority = principal(1);
    let issuer = principal(2);
    let owner = principal(3);

    let fw_addr = setup_framework(&mut reg, &authority, 1);
    let asset_addr = setup_asset(&mut reg, &owner, 7);

    let r = reg.issue_trust(
        &issuer,
        &fw_addr,
        &asset_addr,
        85,
        "verified".to_string(),
        None,
        NOW,
    );
    assert_eq!(r, Ok(()));

    let rec_addr = derive_record_address(&fw_addr, &issuer, &asset_addr)
        .expect("derivable")
        .0;
    match reg.lookup(&rec_addr) {
        Some(Entity::Record(rec)) => {
            assert!(rec.is_active);
            assert_eq!(rec.trust_score, 85);
            assert_eq!(rec.evidence, "verified");
            assert_eq!(rec.framework, fw_addr);
            assert_eq!(rec.issuer, issuer);
            assert_eq!(rec.target_asset, asset_addr);
            assert_eq!(rec.issued_at, NOW);
            assert_eq!(rec.expires_at, None);
        }
        _ => panic!("record not committed at its derived address"),
    }

    let again = reg.issue_trust(
        &issuer,
        &fw_addr,
        &asset_addr,
        60,
        "checked once more".to_string(),
        None,
        NOW + 5,
    );
    assert_eq!(again, Err(TrustErrorCode::AddressAlreadyInUse));
}

#[test]
fn created_framework_sits_at_derived_address() {
    let mut reg = Registry::new();
    let authority = principal(9);
    let fw_addr = setup_framework(&mut reg, &authority, 42);
    let fw = framework_at(&reg, &fw_addr);
    assert_eq!(fw.authority, authority);
    assert_eq!(fw.framework_id, 42);
    assert_eq!(fw.name, "KYC");
    assert!(fw.is_active);
    assert_eq!(fw.created_at, NOW);
    assert_eq!(fw.bump, derive_framework_address(&authority, 42).unwrap().1);

    let again = reg.create_trust_framework(
        &authority,
        42,
        "other name".to_string(),
        String::new(),
        Vec::new(),
        NOW + 1,
    );
    assert_eq!(again, Err(ErrorCode::AddressAlreadyInUse));
}

#[test]
fn created_asset_sits_at_derived_address() {
    let mut reg = Registry::new();
    let owner = principal(4);
    let asset_addr = setup_asset(&mut reg, &owner, 7);
    match reg.lookup(&asset_addr) {
        Some(Entity::Asset(a)) => {
            assert_eq!(a.owner, owner);
            assert_eq!(a.asset_id, 7);
            assert_eq!(a.name, "Acme");
            assert!(a.is_active);
            assert_eq!(a.bump, derive_asset_address(&owner, 7).unwrap().1);
        }
        _ => panic!("asset not committed at its derived address"),
    }
    let again = reg.create_asset_profile(
        &owner,
        7,
        "Acme again".to_string(),
        String::new(),
        AssetType::Other,
        None,
        NOW + 1,
    );
    assert_eq!(again, Err(AssetErrorCode::AddressAlreadyInUse));
}

#[test]
fn framework_name_boundary() {
    let mut reg = Registry::new();
    let authority = principal(1);
    let at_bound = reg.create_trust_framework(
        &authority,
        1,
        "n".repeat(50),
        String::new(),
        Vec::new(),
        NOW,
    );
    assert_eq!(at_bound, Ok(()));
    let over = reg.create_trust_framework(
        &authority,
        2,
        "n".repeat(51),
        String::new(),
        Vec::new(),
        NOW,
    );
    assert_eq!(over, Err(ErrorCode::NameTooLong));
}

#[test]
fn framework_description_boundary() {
    let mut reg = Registry::new();
    let authority = principal(1);
    let at_bound = reg.create_trust_framework(
        &authority,
        1,
        "KYC".to_string(),
        "d".repeat(200),
        Vec::new(),
        NOW,
    );
    assert_eq!(at_bound, Ok(()));
    let over = reg.create_trust_framework(
        &authority,
        2,
        "KYC".to_string(),
        "d".repeat(201),
        Vec::new(),
        NOW,
    );
    assert_eq!(over, Err(ErrorCode::DescriptionTooLong));
}

#[test]
fn framework_criteria_count_boundary() {
    let mut reg = Registry::new();
    let authority = principal(1);
    let at_bound = reg.create_trust_framework(
        &authority,
        1,
        "KYC".to_string(),
        String::new(),
        vec!["c".to_string(); 10],
        NOW,
    );
    assert_eq!(at_bound, Ok(()));
    let over = reg.create_trust_framework(
        &authority,
        2,
        "KYC".to_string(),
        String::new(),
        vec!["c".to_string(); 11],
        NOW,
    );
    assert_eq!(over, Err(ErrorCode::TooManyCriteria));
}

#[test]
fn framework_criterion_length_boundary() {
    let mut reg = Registry::new();
    let authority = principal(1);
    let at_bound = reg.create_trust_framework(
        &authority,
        1,
        "KYC".to_string(),
        String::new(),
        vec!["c".repeat(100)],
        NOW,
    );
    assert_eq!(at_bound, Ok(()));
    let over = reg.create_trust_framework(
        &authority,
        2,
        "KYC".to_string(),
        String::new(),
        vec!["c".repeat(101)],
        NOW,
    );
    assert_eq!(over, Err(ErrorCode::CriteriaTooLong));
}

#[test]
fn asset_name_boundary() {
    let mut reg = Registry::new();
    let owner = principal(1);
    let at_bound = reg.create_asset_profile(
        &owner,
        1,
        "n".repeat(100),
        String::new(),
        AssetType::Digital,
        None,
        NOW,
    );
    assert_eq!(at_bound, Ok(()));
    let over = reg.create_asset_profile(
        &owner,
        2,
        "n".repeat(101),
        String::new(),
        AssetType::Digital,
        None,
        NOW,
    );
    assert_eq!(over, Err(AssetErrorCode::NameTooLong));
}

#[test]
fn asset_description_boundary() {
    let mut reg = Registry::new();
    let owner = principal(1);
    let at_bound = reg.create_asset_profile(
        &owner,
        1,
        "Acme".to_string(),
        "d".repeat(300),
        AssetType::RealEstate,
        None,
        NOW,
    );
    assert_eq!(at_bound, Ok(()));
    let over = reg.create_asset_profile(
        &owner,
        2,
        "Acme".to_string(),
        "d".repeat(301),
        AssetType::RealEstate,
        None,
        NOW,
    );
    assert_eq!(over, Err(AssetErrorCode::DescriptionTooLong));
}

#[test]
fn asset_metadata_uri_boundary() {
    let mut reg = Registry::new();
    let owner = principal(1);
    let at_bound = reg.create_asset_profile(
        &owner,
        1,
        "Acme".to_string(),
        String::new(),
        AssetType::Intellectual,
        Some("u".repeat(200)),
        NOW,
    );
    assert_eq!(at_bound, Ok(()));
    let over = reg.create_asset_profile(
        &owner,
        2,
        "Acme".to_string(),
        String::new(),
        AssetType::Intellectual,
        Some("u".repeat(201)),
        NOW,
    );
    assert_eq!(over, Err(AssetErrorCode::MetadataUriTooLong));
}

#[test]
fn evidence_length_boundary() {
    let mut reg = Registry::new();
    let authority = principal(1);
    let issuer = principal(2);
    let owner = principal(3);
    let fw_addr = setup_framework(&mut reg, &authority, 1);
    let asset_addr = setup_asset(&mut reg, &owner, 1);
    let at_bound = reg.issue_trust(
        &issuer,
        &fw_addr,
        &asset_addr,
        50,
        "e".repeat(500),
        None,
        NOW,
    );
    assert_eq!(at_bound, Ok(()));
    let issuer2 = principal(5);
    let over = reg.issue_trust(
        &issuer2,
        &fw_addr,
        &asset_addr,
        50,
        "e".repeat(501),
        None,
        NOW,
    );
    assert_eq!(over, Err(TrustErrorCode::EvidenceTooLong));
}

#[test]
fn trust_score_boundary() {
    let mut reg = Registry::new();
    let authority = principal(1);
    let issuer = principal(2);
    let owner = principal(3);
    let fw_addr = setup_framework(&mut reg, &authority, 1);
    let asset_addr = setup_asset(&mut reg, &owner, 1);
    let over = reg.issue_trust(
        &issuer,
        &fw_addr,
        &asset_addr,
        101,
        "checked".to_string(),
        None,
        NOW,
    );
    assert_eq!(over, Err(TrustErrorCode::InvalidTrustScore));
    let at_bound = reg.issue_trust(
        &issuer,
        &fw_addr,
        &asset_addr,
        100,
        "checked".to_string(),
        None,
        NOW,
    );
    assert_eq!(at_bound, Ok(()));
}

#[test]
fn expiry_boundary() {
    let mut reg = Registry::new();
    let authority = principal(1);
    let issuer = principal(2);
    let owner = principal(3);
    let fw_addr = setup_framework(&mut reg, &authority, 1);
    let asset_addr = setup_asset(&mut reg, &owner, 1);
    let at_now = reg.issue_trust(
        &issuer,
        &fw_addr,
        &asset_addr,
        50,
        "checked".to_string(),
        Some(NOW),
        NOW,
    );
    assert_eq!(at_now, Err(TrustErrorCode::ExpiryInPast));
    let just_after = reg.issue_trust(
        &issuer,
        &fw_addr,
        &asset_addr,
        50,
        "checked".to_string(),
        Some(NOW + 1),
        NOW,
    );
    assert_eq!(just_after, Ok(()));
}

#[test]
fn inactive_framework_blocks_issuance() {
    let mut reg = Registry::new();
    let authority = principal(1);
    let issuer = principal(2);
    let owner = principal(3);
    let fw_addr = setup_framework(&mut reg, &authority, 1);
    let asset_addr = setup_asset(&mut reg, &owner, 1);
    assert!(reg.framework_is_active(&fw_addr));
    assert!(reg.asset_is_active(&asset_addr));
    reg.update_trust_framework(&authority, &fw_addr, None, None, None, Some(false))
        .expect("deactivation succeeds");
    assert!(!reg.framework_is_active(&fw_addr));

    let r = reg.issue_trust(
        &issuer,
        &fw_addr,
        &asset_addr,
        50,
        "checked".to_string(),
        None,
        NOW,
    );
    assert_eq!(r, Err(TrustErrorCode::FrameworkInactive));

    // The framework check dominates even when other arguments are bad too.
    let r = reg.issue_trust(
        &issuer,
        &fw_addr,
        &asset_addr,
        101,
        "e".repeat(501),
        Some(NOW - 10),
        NOW,
    );
    assert_eq!(r, Err(TrustErrorCode::FrameworkInactive));
}

#[test]
fn missing_framework_blocks_issuance() {
    let mut reg = Registry::new();
    let issuer = principal(2);
    let owner = principal(3);
    let asset_addr = setup_asset(&mut reg, &owner, 1);
    let ghost_fw = derive_framework_address(&principal(8), 99).unwrap().0;
    let r = reg.issue_trust(
        &issuer,
        &ghost_fw,
        &asset_addr,
        50,
        "checked".to_string(),
        None,
        NOW,
    );
    assert_eq!(r, Err(TrustErrorCode::FrameworkInactive));
}

#[test]
fn missing_asset_blocks_issuance() {
    let mut reg = Registry::new();
    let authority = principal(1);
    let issuer = principal(2);
    let fw_addr = setup_framework(&mut reg, &authority, 1);
    let ghost_asset = derive_asset_address(&principal(8), 99).unwrap().0;
    let r = reg.issue_trust(
        &issuer,
        &fw_addr,
        &ghost_asset,
        50,
        "checked".to_string(),
        None,
        NOW,
    );
    assert_eq!(r, Err(TrustErrorCode::AssetInactive));
}

#[test]
fn update_by_non_authority_is_rejected_and_changes_nothing() {
    let mut reg = Registry::new();
    let authority = principal(1);
    let intruder = principal(2);
    let fw_addr = setup_framework(&mut reg, &authority, 1);
    let before = framework_at(&reg, &fw_addr);

    let r = reg.update_trust_framework(
        &intruder,
        &fw_addr,
        Some("hijacked".to_string()),
        Some("hijacked".to_string()),
        Some(vec!["hijacked".to_string()]),
        Some(false),
    );
    assert_eq!(r, Err(UpdateErrorCode::Unauthorized));

    let after = framework_at(&reg, &fw_addr);
    assert_eq!(after.authority, before.authority);
    assert_eq!(after.framework_id, before.framework_id);
    assert_eq!(after.name, before.name);
    assert_eq!(after.description, before.description);
    assert_eq!(after.criteria, before.criteria);
    assert_eq!(after.is_active, before.is_active);
    assert_eq!(after.created_at, before.created_at);
    assert_eq!(after.bump, before.bump);
}

#[test]
fn deactivation_flips_only_is_active() {
    let mut reg = Registry::new();
    let authority = principal(1);
    let fw_addr = setup_framework(&mut reg, &authority, 1);
    let before = framework_at(&reg, &fw_addr);

    let r = reg.update_trust_framework(&authority, &fw_addr, None, None, None, Some(false));
    assert_eq!(r, Ok(()));

    let after = framework_at(&reg, &fw_addr);
    assert!(!after.is_active);
    assert_eq!(after.name, before.name);
    assert_eq!(after.description, before.description);
    assert_eq!(after.criteria, before.criteria);
    assert_eq!(after.authority, before.authority);
    assert_eq!(after.framework_id, before.framework_id);
    assert_eq!(after.created_at, before.created_at);
    assert_eq!(after.bump, before.bump);
}

#[test]
fn update_applies_only_supplied_fields() {
    let mut reg = Registry::new();
    let authority = principal(1);
    let fw_addr = setup_framework(&mut reg, &authority, 1);
    let r = reg.update_trust_framework(
        &authority,
        &fw_addr,
        Some("AML".to_string()),
        None,
        None,
        None,
    );
    assert_eq!(r, Ok(()));
    let after = framework_at(&reg, &fw_addr);
    assert_eq!(after.name, "AML");
    assert_eq!(after.description, "identity checks");
    assert_eq!(after.criteria, vec!["id_check".to_string()]);
    assert!(after.is_active);
}

#[test]
fn update_bounds_are_enforced() {
    let mut reg = Registry::new();
    let authority = principal(1);
    let fw_addr = setup_framework(&mut reg, &authority, 1);

    let r = reg.update_trust_framework(
        &authority,
        &fw_addr,
        Some("n".repeat(51)),
        None,
        None,
        None,
    );
    assert_eq!(r, Err(UpdateErrorCode::NameTooLong));

    let r = reg.update_trust_framework(
        &authority,
        &fw_addr,
        None,
        Some("d".repeat(201)),
        None,
        None,
    );
    assert_eq!(r, Err(UpdateErrorCode::DescriptionTooLong));

    let r = reg.update_trust_framework(
        &authority,
        &fw_addr,
        None,
        None,
        Some(vec!["c".to_string(); 11]),
        None,
    );
    assert_eq!(r, Err(UpdateErrorCode::TooManyCriteria));

    let r = reg.update_trust_framework(
        &authority,
        &fw_addr,
        None,
        None,
        Some(vec!["c".repeat(101)]),
        None,
    );
    assert_eq!(r, Err(UpdateErrorCode::CriteriaTooLong));

    // At the bounds, everything passes at once.
    let r = reg.update_trust_framework(
        &authority,
        &fw_addr,
        Some("n".repeat(50)),
        Some("d".repeat(200)),
        Some(vec!["c".repeat(100); 10]),
        Some(true),
    );
    assert_eq!(r, Ok(()));
    let after = framework_at(&reg, &fw_addr);
    assert_eq!(after.name, "n".repeat(50));
    assert_eq!(after.criteria.len(), 10);
}
