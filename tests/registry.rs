use umbra_swap::errors::RwaError;
use umbra_swap::keys::Pubkey;
use umbra_swap::registry::{
    deactivate_asset, grant_access, initialize_protocol, log_access, register_asset,
    revoke_access, update_metadata, AccessLevel, AccessType, AssetStatus, AssetType, RwaAsset,
};

fn key(b: u8) -> Pubkey {
    Pubkey::new([b; 32])
}

fn asset() -> RwaAsset {
    let mut config = initialize_protocol(key(1));
    register_asset(
        &mut config, &key(2), key(3), [4u8; 32], AssetType::RealEstate, vec![0; 64], [5u8; 32], 10,
    )
    .unwrap()
}

#[test]
fn registration_counts_assets() {
    let mut config = initialize_protocol(key(1));
    assert_eq!(
        register_asset(
            &mut config, &key(2), key(3), [4u8; 32], AssetType::Other, vec![0; 63], [5u8; 32], 0,
        )
        .err(),
        Some(RwaError::InvalidMetadataLength)
    );
    assert_eq!(config.asset_count, 0);
    let a = register_asset(
        &mut config, &key(2), key(3), [4u8; 32], AssetType::Other, vec![0; 1024], [5u8; 32], 0,
    )
    .unwrap();
    assert!(a.is_active());
    assert_eq!(config.asset_count, 1);
}

#[test]
fn grants_and_revocation() {
    let mut a = asset();
    assert_eq!(
        grant_access(&mut a, &key(9), key(7), AccessLevel::ViewFull, vec![0; 48], 0, false, 11)
            .err(),
        Some(RwaError::UnauthorizedGrantor)
    );
    assert_eq!(
        grant_access(&mut a, &key(2), key(7), AccessLevel::ViewFull, vec![0; 47], 0, false, 11)
            .err(),
        Some(RwaError::InvalidKeyShareLength)
    );
    let mut grant =
        grant_access(&mut a, &key(2), key(7), AccessLevel::Auditor, vec![0; 48], 50, true, 11)
            .unwrap();
    assert_eq!(a.access_grant_count, 1);
    assert!(grant.is_valid(49));
    assert!(!grant.is_valid(50));
    assert_eq!(revoke_access(&a, &key(7), &mut grant, 12), Err(RwaError::UnauthorizedRevoker));
    assert_eq!(revoke_access(&a, &key(2), &mut grant, 12), Ok(()));
    assert!(!grant.is_valid(0));
    assert_eq!(grant.revoked_at, 12);
    assert_eq!(revoke_access(&a, &key(2), &mut grant, 13), Err(RwaError::AlreadyRevoked));
}

#[test]
fn audit_entries() {
    let mut a = asset();
    let grant =
        grant_access(&mut a, &key(2), key(7), AccessLevel::ViewBasic, vec![0; 48], 0, false, 11)
            .unwrap();
    let log = log_access(&a, &key(7), Some(&grant), AccessType::Download, vec![1], 20).unwrap();
    assert!(log.was_granted);
    assert_eq!(log.timestamp, 20);
    let anonymous = log_access(&a, &key(8), None, AccessType::ViewBasic, vec![], 21).unwrap();
    assert!(!anonymous.was_granted);
    assert_eq!(
        log_access(&a, &key(8), Some(&grant), AccessType::ViewBasic, vec![], 21).err(),
        Some(RwaError::InvalidGrant)
    );
}

#[test]
fn issuer_only_changes() {
    let mut a = asset();
    assert_eq!(update_metadata(&mut a, &key(9), vec![0; 64], 30), Err(RwaError::UnauthorizedIssuer));
    assert_eq!(update_metadata(&mut a, &key(2), vec![1; 100], 30), Ok(()));
    assert_eq!(a.encrypted_metadata.len(), 100);
    assert_eq!(a.updated_at, 30);
    assert_eq!(deactivate_asset(&mut a, &key(9), 31), Err(RwaError::UnauthorizedIssuer));
    assert_eq!(deactivate_asset(&mut a, &key(2), 31), Ok(()));
    assert_eq!(a.status, AssetStatus::Inactive);
}
