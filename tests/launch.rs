use umbra_swap::errors::DarkFlowError;
use umbra_swap::keys::Pubkey;
use umbra_swap::launch::{
    buy_from_launch, calculate_tokens_for_payment, launch_confidential_token, update_encrypted_sold,
    ConfidentialLaunch, LaunchStatus,
};
use umbra_swap::ledger::TokenAccount;

fn key(b: u8) -> Pubkey {
    Pubkey::new([b; 32])
}

fn open_sale(price: u64, supply: u64) -> ConfidentialLaunch {
    launch_confidential_token(key(1), key(2), key(3), vec![1; 16], price, supply, 100).unwrap()
}

#[test]
fn launch_validation() {
    assert_eq!(
        launch_confidential_token(key(1), key(2), key(3), vec![1; 16], 0, 10, 0).err(),
        Some(DarkFlowError::InvalidAmount)
    );
    assert_eq!(
        launch_confidential_token(key(1), key(2), key(3), vec![], 1, 10, 0).err(),
        Some(DarkFlowError::InvalidEncryptedData)
    );
    let sale = open_sale(10, 100);
    assert_eq!(sale.status, LaunchStatus::Active);
    assert!(sale.is_active(100));
    assert!(!sale.is_active(99));
}

#[test]
fn purchases_until_sold_out() {
    let mut sale = open_sale(10, 100);
    let mut buyer = TokenAccount::new(key(20), key(3), key(9), 5000);
    let mut vault = TokenAccount::new(key(21), key(3), key(1), 0);
    assert_eq!(
        buy_from_launch(&mut sale, &key(9), &mut buyer, &mut vault, &[5, 6], [1u8; 32], 600, 101),
        Ok(())
    );
    assert_eq!(sale.approximate_sold, 60);
    assert_eq!(sale.buyer_count, 1);
    assert_eq!(sale.total_payments, 600);
    assert_eq!(sale.encrypted_sold, vec![5, 6]);
    assert_eq!(vault.amount, 600);
    assert_eq!(
        buy_from_launch(&mut sale, &key(9), &mut buyer, &mut vault, &[7], [1u8; 32], 500, 102),
        Err(DarkFlowError::LaunchSoldOut)
    );
    assert_eq!(
        buy_from_launch(&mut sale, &key(9), &mut buyer, &mut vault, &[7], [1u8; 32], 400, 102),
        Ok(())
    );
    assert_eq!(sale.status, LaunchStatus::SoldOut);
    assert_eq!(sale.encrypted_sold, vec![5, 6, 7]);
    assert_eq!(
        buy_from_launch(&mut sale, &key(9), &mut buyer, &mut vault, &[7], [1u8; 32], 10, 103),
        Err(DarkFlowError::LaunchNotActive)
    );
}

#[test]
fn purchase_rejections() {
    let mut sale = open_sale(10, 100);
    let mut buyer = TokenAccount::new(key(20), key(3), key(9), 50);
    let mut vault = TokenAccount::new(key(21), key(3), key(1), 0);
    assert_eq!(
        buy_from_launch(&mut sale, &key(9), &mut buyer, &mut vault, &[1], [0u8; 32], 10, 101),
        Err(DarkFlowError::InvalidCommitment)
    );
    assert_eq!(
        buy_from_launch(&mut sale, &key(9), &mut buyer, &mut vault, &[1], [1u8; 32], 60, 101),
        Err(DarkFlowError::InsufficientBalance)
    );
    assert_eq!(
        buy_from_launch(&mut sale, &key(8), &mut buyer, &mut vault, &[1], [1u8; 32], 10, 101),
        Err(DarkFlowError::Unauthorized)
    );
    assert_eq!(sale.buyer_count, 0);
}

#[test]
fn launch_helpers() {
    assert_eq!(calculate_tokens_for_payment(99, 10), 9);
    assert_eq!(calculate_tokens_for_payment(99, 0), 99);
    assert_eq!(update_encrypted_sold(&[1, 2], &[3]), vec![1, 2, 3]);
    let mut sale = open_sale(10, 100);
    sale.end();
    assert_eq!(sale.status, LaunchStatus::Ended);
}
