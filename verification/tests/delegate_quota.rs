use bridge_cards::account_data::AccountData;
use bridge_cards::errors::ErrorCode;
use bridge_cards::state::UserDelegateState;

fn setup_delegate_state() -> UserDelegateState {
    UserDelegateState {
        per_transfer_limit: 1000,
        period_transfer_limit: 2000,
        period_transferred_amount: 0,
        period_timestamp_last_reset: 100,
        transfer_limit_period_seconds: 3600, // 1 hour
        slot_last_transferred: 0,
        bump: 0,
    }
}

#[test]
fn test_successful_transfer() {
    let mut state = setup_delegate_state();
    assert!(state.validate_debit_and_update(500, 200, 1).is_ok());
    assert_eq!(state.period_transferred_amount, 500);
}

#[test]
fn test_exceeds_per_transfer_limit() {
    let mut state = setup_delegate_state();
    let result = state.validate_debit_and_update(1500, 200, 1);
    assert!(result.is_err());
    if let Err(error) = result {
        assert_eq!(error, ErrorCode::ExceedsMaxTransferLimit);
    }
}

#[test]
fn test_exceeds_period_transfer_limit() {
    let mut state = setup_delegate_state();
    // First transfer
    assert!(state.validate_debit_and_update(900, 200, 1).is_ok());
    assert!(state.validate_debit_and_update(200, 300, 2).is_ok());

    // Second transfer that would exceed period limit
    let result = state.validate_debit_and_update(1000, 300, 1);
    assert!(result.is_err());
    if let Err(error) = result {
        assert_eq!(error, ErrorCode::ExceedsTransferLimitPerPeriod);
    }
}

#[test]
fn test_period_reset() {
    let mut state = setup_delegate_state();
    // Initial transfer
    assert!(state.validate_debit_and_update(900, 200, 1).is_ok());
    assert_eq!(state.period_transferred_amount, 900);

    // Transfer after period reset (3600 seconds + initial timestamp)
    assert!(state.validate_debit_and_update(900, 4000, 2).is_ok());
    assert_eq!(state.period_transferred_amount, 900);
    assert_eq!(state.period_timestamp_last_reset, 4000);
}

#[test]
fn test_multiple_transfers_within_period() {
    let mut state = setup_delegate_state();
    // First transfer
    assert!(state.validate_debit_and_update(500, 200, 1).is_ok());
    assert_eq!(state.period_transferred_amount, 500);

    // Second transfer
    assert!(state.validate_debit_and_update(300, 300, 2).is_ok());
    assert_eq!(state.period_transferred_amount, 800);

    // Third transfer
    assert!(state.validate_debit_and_update(200, 400, 3).is_ok());
    assert_eq!(state.period_transferred_amount, 1000);
}

#[test]
fn test_exceeds_max_transactions_per_slot() {
    let mut state = setup_delegate_state();
    // First transfer in slot 1
    assert!(state.validate_debit_and_update(500, 200, 1).is_ok());
    assert_eq!(state.slot_last_transferred, 1);

    // Second transfer in same slot should fail
    let result = state.validate_debit_and_update(300, 300, 1);
    assert!(result.is_err());
    if let Err(error) = result {
        assert_eq!(error, ErrorCode::ExceedsMaxTransactionsPerSlot);
    }

    // Transfer in different slot should succeed
    assert!(state.validate_debit_and_update(200, 400, 2).is_ok());
    assert_eq!(state.slot_last_transferred, 2);
}

#[test]
fn test_state_updates() {
    let default_state: UserDelegateState = setup_delegate_state();
    let mut state = setup_delegate_state();

    // First transfer
    assert!(state.validate_debit_and_update(500, 200, 1).is_ok());

    // Verify all state updates after first transfer
    assert_eq!(
        state.per_transfer_limit, default_state.per_transfer_limit,
        "per_transfer_limit should remain unchanged"
    );
    assert_eq!(
        state.period_transfer_limit, default_state.period_transfer_limit,
        "period_transfer_limit should remain unchanged"
    );
    assert_eq!(
        state.period_transferred_amount, 500,
        "period_transferred_amount should be updated"
    );
    assert_eq!(
        state.period_timestamp_last_reset, 100,
        "period_timestamp should remain unchanged as period not elapsed"
    );
    assert_eq!(
        state.transfer_limit_period_seconds, default_state.transfer_limit_period_seconds,
        "transfer_limit_period should remain unchanged"
    );
    assert_eq!(
        state.slot_last_transferred, 1,
        "slot_last_transferred should be updated"
    );

    // Second transfer in new slot but same period
    assert!(state.validate_debit_and_update(300, 300, 2).is_ok());

    // Verify all state updates after second transfer
    assert_eq!(
        state.per_transfer_limit, 1000,
        "per_transfer_limit should remain unchanged"
    );
    assert_eq!(
        state.period_transfer_limit, 2000,
        "period_transfer_limit should remain unchanged"
    );
    assert_eq!(
        state.period_transferred_amount, 800,
        "period_transferred_amount should accumulate"
    );
    assert_eq!(
        state.period_timestamp_last_reset, 100,
        "period_timestamp should remain unchanged as period not elapsed"
    );
    assert_eq!(
        state.transfer_limit_period_seconds, 3600,
        "transfer_limit_period should remain unchanged"
    );
    assert_eq!(
        state.slot_last_transferred, 2,
        "slot_last_transferred should be updated"
    );

    // Transfer after period reset
    assert!(state.validate_debit_and_update(400, 4000, 3).is_ok());

    // Verify all state updates after period reset
    assert_eq!(
        state.per_transfer_limit, 1000,
        "per_transfer_limit should remain unchanged"
    );
    assert_eq!(
        state.period_transfer_limit, 2000,
        "period_transfer_limit should remain unchanged"
    );
    assert_eq!(
        state.period_transferred_amount, 400,
        "period_transferred_amount should reset and reflect new transfer"
    );
    assert_eq!(
        state.period_timestamp_last_reset, 4000,
        "period_timestamp should update to new period"
    );
    assert_eq!(
        state.transfer_limit_period_seconds, 3600,
        "transfer_limit_period should remain unchanged"
    );
    assert_eq!(
        state.slot_last_transferred, 3,
        "slot_last_transferred should be updated"
    );

    let result = state.validate_debit_and_update(1001, 4100, 4);
    assert!(result.is_err());
    if let Err(error) = result {
        assert_eq!(error, ErrorCode::ExceedsMaxTransferLimit);
    }

    // Verify state unchanged after failed transfer
    assert_eq!(
        state.per_transfer_limit, default_state.per_transfer_limit,
        "per_transfer_limit should remain unchanged after failed transfer"
    );
    assert_eq!(
        state.period_transfer_limit, default_state.period_transfer_limit,
        "period_transfer_limit should remain unchanged after failed transfer"
    );
    assert_eq!(
        state.period_transferred_amount, 400,
        "period_transferred_amount should remain unchanged after failed transfer"
    );
    assert_eq!(
        state.period_timestamp_last_reset, 4000,
        "period_timestamp should remain unchanged after failed transfer"
    );
    assert_eq!(
        state.transfer_limit_period_seconds, default_state.transfer_limit_period_seconds,
        "transfer_limit_period should remain unchanged after failed transfer"
    );
    assert_eq!(
        state.slot_last_transferred, 3,
        "slot_last_transferred should remain unchanged after failed transfer"
    );

    // Verify we can still make a transfer within the remaining period limit
    assert!(state.validate_debit_and_update(500, 4200, 5).is_ok());
    assert_eq!(
        state.period_transferred_amount, 900,
        "period_transferred_amount should reflect accumulated transfers"
    );
    assert_eq!(
        state.slot_last_transferred, 5,
        "slot_last_transferred should be updated"
    );
}

#[test]
fn test_period_boundary_is_strict() {
    // A call exactly transfer_limit_period_seconds after the anchor does not
    // roll the window over; one second later it does.
    let mut at_boundary = setup_delegate_state();
    assert!(at_boundary.validate_debit_and_update(100, 3700, 1).is_ok());
    assert_eq!(at_boundary.period_timestamp_last_reset, 100);
    assert_eq!(at_boundary.period_transferred_amount, 100);

    let mut past_boundary = setup_delegate_state();
    assert!(past_boundary.validate_debit_and_update(100, 3701, 1).is_ok());
    assert_eq!(past_boundary.period_timestamp_last_reset, 3701);
    assert_eq!(past_boundary.period_transferred_amount, 100);
}

#[test]
fn test_failed_transfer_leaves_bytes_unchanged() {
    let mut state = setup_delegate_state();
    assert!(state.validate_debit_and_update(500, 200, 1).is_ok());
    let before = state;
    let before_bytes = state.account_data();

    let result = state.validate_debit_and_update(1500, 300, 2);
    assert_eq!(result, Err(ErrorCode::ExceedsMaxTransferLimit));
    assert_eq!(state, before);
    assert_eq!(state.account_data(), before_bytes);
}

#[test]
fn test_accumulator_overflow_is_period_limit_error() {
    // An accumulator overflow counts as exceeding the period limit; nothing
    // wraps and the record is unchanged.
    let mut state = UserDelegateState {
        per_transfer_limit: 100,
        period_transfer_limit: u64::MAX,
        period_transferred_amount: u64::MAX - 10,
        period_timestamp_last_reset: 100,
        transfer_limit_period_seconds: 3600,
        slot_last_transferred: 0,
        bump: 0,
    };
    let before = state;
    let result = state.validate_debit_and_update(50, 200, 1);
    assert_eq!(result, Err(ErrorCode::ExceedsTransferLimitPerPeriod));
    assert_eq!(state, before);
}

#[test]
fn test_quota_scenario_end_to_end() {
    // A full scenario: limits 1000 per transfer and 2000
    // per 3600-second period, anchored at 100.
    let mut state = setup_delegate_state();
    assert!(state.validate_debit_and_update(500, 200, 1).is_ok());
    assert_eq!(state.period_transferred_amount, 500);

    let result = state.validate_debit_and_update(1500, 200, 2);
    assert_eq!(result, Err(ErrorCode::ExceedsMaxTransferLimit));
    assert_eq!(state.period_transferred_amount, 500);

    // From a fresh record: 900 then 200 accumulate, then 1000 more would
    // exceed the period limit.
    let mut chain = setup_delegate_state();
    assert!(chain.validate_debit_and_update(900, 200, 2).is_ok());
    assert_eq!(chain.period_transferred_amount, 900);
    assert!(chain.validate_debit_and_update(200, 300, 3).is_ok());
    assert_eq!(chain.period_transferred_amount, 1100);
    let result = chain.validate_debit_and_update(1000, 300, 4);
    assert_eq!(result, Err(ErrorCode::ExceedsTransferLimitPerPeriod));
    assert_eq!(chain.period_transferred_amount, 1100);

    // A record with 900 accumulated rolls over at t=4000 (delta 3900 > 3600)
    // and takes the debit on the fresh window.
    let mut rolled = setup_delegate_state();
    rolled.period_transferred_amount = 900;
    assert!(rolled.validate_debit_and_update(900, 4000, 5).is_ok());
    assert_eq!(rolled.period_transferred_amount, 900);
    assert_eq!(rolled.period_timestamp_last_reset, 4000);
}

#[test]
fn test_two_debits_same_slot_second_rejected() {
    // First debit in a slot succeeds; a second against the same record in
    // the same slot fails with the per-slot bound and changes nothing.
    let mut state = setup_delegate_state();
    assert!(state.validate_debit_and_update(500, 200, 7).is_ok());
    let before = state;
    let result = state.validate_debit_and_update(500, 250, 7);
    assert_eq!(result, Err(ErrorCode::ExceedsMaxTransactionsPerSlot));
    assert_eq!(state, before);
}
