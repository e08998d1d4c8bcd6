use astar_primitives::assets::{
    ECOSYSTEM_ASSET_ID_MAX, ECOSYSTEM_ASSET_ID_MIN, RELAY_TOKEN_ASSET_ID, SIBLING_ASSET_ID_MAX,
    SIBLING_ASSET_ID_MIN, USER_ASSET_ID_MAX, USER_ASSET_ID_MIN,
};
use astar_primitives::{classify, validate_new, AssetClass, AssetIdError, AssetRegistry};

#[test]
fn user_range_classifies_as_user_asset() {
    for id in [1u128, 2, 5, 1000, (1u128 << 32) - 2, (1u128 << 32) - 1] {
        assert_eq!(classify(id), AssetClass::UserAsset);
    }
}

#[test]
fn sibling_range_classifies_as_sibling_asset() {
    for id in [1u128 << 32, (1u128 << 32) + 1, 1u128 << 48, (1u128 << 64) - 1] {
        assert_eq!(classify(id), AssetClass::SiblingAsset);
    }
}

#[test]
fn ecosystem_range_classifies_as_ecosystem_asset() {
    for id in [1u128 << 64, (1u128 << 64) + 1, 1u128 << 100, u128::MAX - 1] {
        assert_eq!(classify(id), AssetClass::EcosystemAsset);
    }
}

#[test]
fn relay_token_and_zero() {
    assert_eq!(classify(u128::MAX), AssetClass::RelayToken);
    assert_eq!(classify(0), AssetClass::Invalid);
}

#[test]
fn range_constants_match_powers_of_two() {
    assert_eq!(USER_ASSET_ID_MIN, 1);
    assert_eq!(USER_ASSET_ID_MAX, (1u128 << 32) - 1);
    assert_eq!(SIBLING_ASSET_ID_MIN, 1u128 << 32);
    assert_eq!(SIBLING_ASSET_ID_MAX, (1u128 << 64) - 1);
    assert_eq!(ECOSYSTEM_ASSET_ID_MIN, 1u128 << 64);
    assert_eq!(ECOSYSTEM_ASSET_ID_MAX, u128::MAX - 1);
    assert_eq!(RELAY_TOKEN_ASSET_ID, u128::MAX);
}

#[test]
fn second_registration_is_refused() {
    let mut registry = AssetRegistry::new();
    assert_eq!(validate_new(7, AssetClass::UserAsset, &registry), Ok(()));
    registry.insert(7);
    assert_eq!(
        validate_new(7, AssetClass::UserAsset, &registry),
        Err(AssetIdError::AlreadyAllocated)
    );
}

#[test]
fn sibling_authority_cannot_take_user_id() {
    let registry = AssetRegistry::new();
    assert_eq!(
        validate_new(5, AssetClass::SiblingAsset, &registry),
        Err(AssetIdError::OutOfRange)
    );
}

#[test]
fn zero_is_refused_for_every_authority() {
    let registry = AssetRegistry::new();
    for authority in [
        AssetClass::Invalid,
        AssetClass::UserAsset,
        AssetClass::SiblingAsset,
        AssetClass::EcosystemAsset,
        AssetClass::RelayToken,
    ] {
        assert_eq!(validate_new(0, authority, &registry), Err(AssetIdError::OutOfRange));
    }
}

#[test]
fn relay_token_id_only_for_relay_token() {
    let registry = AssetRegistry::new();
    assert_eq!(
        validate_new(u128::MAX, AssetClass::EcosystemAsset, &registry),
        Err(AssetIdError::OutOfRange)
    );
    assert_eq!(validate_new(u128::MAX, AssetClass::RelayToken, &registry), Ok(()));
}

#[test]
fn out_of_range_comes_before_already_allocated() {
    let mut registry = AssetRegistry::new();
    registry.insert(1u128 << 40);
    assert_eq!(
        validate_new(1u128 << 40, AssetClass::UserAsset, &registry),
        Err(AssetIdError::OutOfRange)
    );
    assert_eq!(
        validate_new(1u128 << 40, AssetClass::SiblingAsset, &registry),
        Err(AssetIdError::AlreadyAllocated)
    );
}

#[test]
fn registry_keeps_each_id_once() {
    let mut registry = AssetRegistry::new();
    assert_eq!(registry.len(), 0);
    assert!(!registry.contains(3));
    registry.insert(3);
    registry.insert(3);
    registry.insert(1u128 << 70);
    assert_eq!(registry.len(), 2);
    assert!(registry.contains(3));
    assert!(registry.contains(1u128 << 70));
    assert!(!registry.contains(4));
}
