use umbra_swap::keys::Pubkey;
use umbra_swap::sovereign::{
    get_privacy_benefits, read_sovereign_composite_score, read_sovereign_tier,
    read_sovereign_trading_score, sovereign_tier_to_fairscore, sovereign_tier_to_umbra_index,
    COMPOSITE_SCORE_OFFSET, TIER_OFFSET, TRADING_SCORE_OFFSET,
};
use umbra_swap::tiers::{MevProtectionLevel, TierConfig};

fn key(b: u8) -> Pubkey {
    Pubkey::new([b; 32])
}

fn config() -> TierConfig {
    TierConfig::new(key(1), key(2), key(3))
}

#[test]
fn tier_boundaries_of_default_table() {
    let c = config();
    assert_eq!(c.get_tier_index(0), 0);
    assert_eq!(c.get_tier_index(19), 0);
    assert_eq!(c.get_tier_index(20), 1);
    assert_eq!(c.get_tier_index(39), 1);
    assert_eq!(c.get_tier_index(40), 2);
    assert_eq!(c.get_tier_index(60), 3);
    assert_eq!(c.get_tier_index(79), 3);
    assert_eq!(c.get_tier_index(80), 4);
    assert_eq!(c.get_tier_index(100), 4);
}

#[test]
fn default_fees_and_protection() {
    let c = config();
    assert_eq!(c.get_fee_bps(10), 50);
    assert_eq!(c.get_fee_bps(25), 30);
    assert_eq!(c.get_fee_bps(45), 15);
    assert_eq!(c.get_fee_bps(65), 8);
    assert_eq!(c.get_fee_bps(95), 5);
    assert_eq!(c.get_mev_protection(10), MevProtectionLevel::Unprotected);
    assert_eq!(c.get_mev_protection(45), MevProtectionLevel::Full);
    assert_eq!(c.get_mev_protection(95), MevProtectionLevel::Priority);
}

#[test]
fn fee_never_rises_with_score() {
    let c = config();
    let mut previous_index = 0;
    let mut previous_fee = u16::MAX;
    for score in 0..=100u8 {
        let index = c.get_tier_index(score);
        let fee = c.get_fee_bps(score);
        assert!(index >= previous_index);
        assert!(fee <= previous_fee);
        previous_index = index;
        previous_fee = fee;
    }
}

#[test]
fn discount_never_falls_with_level() {
    let mut previous = 0;
    for level in 1..=5u8 {
        let discount = get_privacy_benefits(level).fee_discount_bps;
        assert!(discount >= previous);
        previous = discount;
    }
}

#[test]
fn order_type_permissions_by_tier() {
    let c = config();
    assert!(c.is_order_type_allowed(0, 1));
    assert!(!c.is_order_type_allowed(0, 2));
    assert!(c.is_order_type_allowed(25, 2));
    assert!(!c.is_order_type_allowed(45, 8));
    assert!(c.is_order_type_allowed(65, 8));
    assert!(!c.is_order_type_allowed(79, 16));
    assert!(c.is_order_type_allowed(80, 16));
}

#[test]
fn sovereign_level_mapping() {
    assert_eq!(sovereign_tier_to_umbra_index(1), 0);
    assert_eq!(sovereign_tier_to_umbra_index(4), 3);
    assert_eq!(sovereign_tier_to_umbra_index(5), 4);
    assert_eq!(sovereign_tier_to_umbra_index(0), 0);
    assert_eq!(sovereign_tier_to_umbra_index(9), 0);
    assert_eq!(sovereign_tier_to_fairscore(3), 50);
    assert_eq!(sovereign_tier_to_fairscore(5), 90);
    assert_eq!(sovereign_tier_to_fairscore(7), 0);
}

#[test]
fn sovereign_benefits_table() {
    let b = get_privacy_benefits(4);
    assert_eq!(b.fee_discount_bps, 3000);
    assert_eq!(b.max_order_size, 1_000_000_000_000);
    assert!(b.dark_pool_access);
    assert!(!b.priority_execution);
    assert_eq!(get_privacy_benefits(5).max_order_size, u64::MAX);
    assert_eq!(get_privacy_benefits(0), get_privacy_benefits(1));
}

#[test]
fn identity_record_reading() {
    assert_eq!(read_sovereign_tier(&[]), 1);
    let mut data = vec![0u8; 220];
    data[TIER_OFFSET] = 4;
    data[COMPOSITE_SCORE_OFFSET] = 0x34;
    data[COMPOSITE_SCORE_OFFSET + 1] = 0x12;
    data[TRADING_SCORE_OFFSET] = 7;
    assert_eq!(read_sovereign_tier(&data), 4);
    assert_eq!(read_sovereign_composite_score(&data), 0x1234);
    assert_eq!(read_sovereign_trading_score(&data), 7);
    assert_eq!(read_sovereign_tier(&data[..TIER_OFFSET]), 1);
    assert_eq!(read_sovereign_composite_score(&data[..COMPOSITE_SCORE_OFFSET + 1]), 0);
}
