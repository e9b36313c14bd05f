use bridge_cards::account_data::AccountData;
use bridge_cards::state::{
    AccountId, BridgeCardsState, MerchantDebitorState, MerchantDestinationState,
    MerchantManagerState, UserDelegateState,
};

#[test]
fn test_bridge_cards_state_bytes() {
    let state = BridgeCardsState { admin: AccountId(0x0102030405060708), bump: 9 };
    assert_eq!(
        state.account_data(),
        vec![0, 0x08, 0x07, 0x06, 0x05, 0x04, 0x03, 0x02, 0x01, 9]
    );
}

#[test]
fn test_merchant_manager_state_bytes() {
    let state = MerchantManagerState { manager: AccountId(258), bump: 7 };
    assert_eq!(state.account_data(), vec![1, 2, 1, 0, 0, 0, 0, 0, 0, 7]);
}

#[test]
fn test_merchant_debitor_state_bytes() {
    let allowed = MerchantDebitorState { allowed: true, bump: 3 };
    assert_eq!(allowed.account_data(), vec![2, 1, 3]);
    let revoked = MerchantDebitorState { allowed: false, bump: 3 };
    assert_eq!(revoked.account_data(), vec![2, 0, 3]);
}

#[test]
fn test_merchant_destination_state_bytes() {
    let allowed = MerchantDestinationState { allowed: true, bump: 8 };
    assert_eq!(allowed.account_data(), vec![3, 1, 8]);
    let revoked = MerchantDestinationState { allowed: false, bump: 8 };
    assert_eq!(revoked.account_data(), vec![3, 0, 8]);
}

#[test]
fn test_user_delegate_state_bytes() {
    let state = UserDelegateState {
        per_transfer_limit: 1000,
        period_transfer_limit: 2000,
        period_transferred_amount: 500,
        period_timestamp_last_reset: 100,
        transfer_limit_period_seconds: 3600,
        slot_last_transferred: 1,
        bump: 255,
    };
    let mut expected: Vec<u8> = vec![4];
    expected.extend_from_slice(&1000u64.to_le_bytes());
    expected.extend_from_slice(&2000u64.to_le_bytes());
    expected.extend_from_slice(&500u64.to_le_bytes());
    expected.extend_from_slice(&100u64.to_le_bytes());
    expected.extend_from_slice(&3600u32.to_le_bytes());
    expected.extend_from_slice(&1u64.to_le_bytes());
    expected.push(255);
    assert_eq!(state.account_data(), expected);
}
