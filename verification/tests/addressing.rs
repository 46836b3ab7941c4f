use daviz::addr::derive_asset_address;
use daviz::addr::derive_framework_address;
use daviz::addr::derive_record_address;

#[test]
fn derivation_is_deterministic() {
    let authority = vec![7u8; 32];
    let a = derive_framework_address(&authority, 1).expect("derivable");
    let b = derive_framework_address(&authority, 1).expect("derivable");
    assert_eq!(a, b);
}

#[test]
fn distinct_key_fields_give_distinct_addresses() {
    let authority = vec![7u8; 32];
    let other = vec![8u8; 32];
    let base = derive_framework_address(&authority, 1).expect("derivable").0;
    assert_ne!(
        base,
        derive_framework_address(&authority, 2).expect("derivable").0
    );
    assert_ne!(
        base,
        derive_framework_address(&other, 1).expect("derivable").0
    );
    // The three entity types occupy disjoint regions of the address space.
    assert_ne!(
        base,
        derive_asset_address(&authority, 1).expect("derivable").0
    );
    // The derived address is a new location, not one of the inputs.
    assert_ne!(base, authority);
}

#[test]
fn record_address_depends_on_whole_triple() {
    let fw = derive_framework_address(&vec![1u8; 32], 1).unwrap().0;
    let asset = derive_asset_address(&vec![2u8; 32], 1).unwrap().0;
    let issuer = vec![3u8; 32];
    let other_issuer = vec![4u8; 32];
    let base = derive_record_address(&fw, &issuer, &asset).unwrap().0;
    assert_eq!(base, derive_record_address(&fw, &issuer, &asset).unwrap().0);
    assert_ne!(
        base,
        derive_record_address(&fw, &other_issuer, &asset).unwrap().0
    );
}

#[test]
fn derivation_matches_host_primitive() {
    let authority = vec![7u8; 32];
    let (addr, bump) = derive_framework_address(&authority, 1).expect("derivable");
    let program_id = anchor_lang::prelude::Pubkey::from_str_const(
        "B1EzQtkQo1o3dthdo1XHfc3R8qa4zLwxEwp8ATAW2sDS",
    );
    let (expected, expected_bump) = anchor_lang::prelude::Pubkey::find_program_address(
        &[b"trust_framework", &authority, &1u64.to_le_bytes()],
        &program_id,
    );
    assert_eq!(addr, expected.to_bytes().to_vec());
    assert_eq!(bump, expected_bump);
}
