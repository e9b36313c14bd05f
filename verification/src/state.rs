//! The permission records and the delegate quota state machine.

use vstd::prelude::*;

use crate::errors::ErrorCode;

verus! {

/// An opaque account identity: a signer, a token account or a mint. The
/// engine never inspects an identity beyond comparing it for equality.
#[derive(Clone, Copy, Debug, PartialEq, Eq, Structural)]
pub struct AccountId(pub u64);

/// The global state of the program: the platform authority. Exactly one such
/// record exists once `initialize` has run; it is never duplicated and the
/// close operation refuses to remove it.
#[derive(Clone, Copy, Debug, PartialEq, Eq, Structural)]
pub struct BridgeCardsState {
    /// Signer allowed to change platform-level records.
    pub admin: AccountId,
    /// Opaque locator-derivation seed.
    pub bump: u8,
}

/// State for a merchant's manager. The manager configures debitors and user
/// delegates for that merchant.
#[derive(Clone, Copy, Debug, PartialEq, Eq, Structural)]
pub struct MerchantManagerState {
    /// Signer allowed to change this merchant's debitor and delegate records.
    pub manager: AccountId,
    /// Opaque locator-derivation seed.
    pub bump: u8,
}

/// State for a merchant's debitor. When `allowed` is true, the debitor may
/// initiate transfers from user delegates of this merchant and asset.
#[derive(Clone, Copy, Debug, PartialEq, Eq, Structural)]
pub struct MerchantDebitorState {
    pub allowed: bool,
    /// Opaque locator-derivation seed.
    pub bump: u8,
}

/// State for a merchant's destination token account. When `allowed` is true,
/// the account may receive transfers for this merchant and asset.
#[derive(Clone, Copy, Debug, PartialEq, Eq, Structural)]
pub struct MerchantDestinationState {
    pub allowed: bool,
    /// Opaque locator-derivation seed.
    pub bump: u8,
}

/// Per-delegate quota state: the transfer limits a merchant manager
/// configured for one user source account, and the rolling-window tracking
/// fields that only a successful debit mutates.
#[derive(Clone, Copy, Debug, PartialEq, Eq, Structural)]
pub struct UserDelegateState {
    /// Maximum amount that one debit may move.
    pub per_transfer_limit: u64,
    /// Maximum total amount that debits may move within one period window.
    pub period_transfer_limit: u64,
    /// Amount already moved within the current period window.
    pub period_transferred_amount: u64,
    /// Timestamp anchoring the current period window.
    pub period_timestamp_last_reset: u64,
    /// Length of the period window in seconds.
    pub transfer_limit_period_seconds: u32,
    /// Slot of the last admitted debit; at most one debit is admitted per slot.
    pub slot_last_transferred: u64,
    /// Opaque locator-derivation seed.
    pub bump: u8,
}

impl UserDelegateState {
    /// The quota invariant: the amount accumulated in the current period
    /// never exceeds the period limit. Every reachable delegate record
    /// satisfies it: configuration resets the accumulator to zero and a
    /// successful debit re-establishes it.
    pub open spec fn wf(self) -> bool {
        self.period_transferred_amount <= self.period_transfer_limit
    }

    /// True when a call at `current_time` falls outside the current period
    /// window, so the debit would first roll the window over. The comparison
    /// is strict: a call exactly `transfer_limit_period_seconds` after the
    /// anchor still belongs to the old window.
    pub open spec fn period_elapsed(self, current_time: u64) -> bool {
        current_time - self.period_timestamp_last_reset > self.transfer_limit_period_seconds
    }

    /// The amount counted against the period limit before a debit at
    /// `current_time` is added: zero if the window rolls over, otherwise the
    /// amount accumulated so far.
    pub open spec fn base_accumulated(self, current_time: u64) -> u64 {
        if self.period_elapsed(current_time) {
            0
        } else {
            self.period_transferred_amount
        }
    }

    /// The first check a debit of `amount` at `current_time` in
    /// `current_slot` fails, or `None` when it is admitted. The checks run in
    /// this order: per-transfer limit, one-debit-per-slot, then the period
    /// limit over the (possibly rolled-over) accumulator. An accumulator
    /// overflow counts as exceeding the period limit.
    pub open spec fn debit_error(
        self,
        amount: u64,
        current_time: u64,
        current_slot: u64,
    ) -> Option<ErrorCode> {
        if amount > self.per_transfer_limit {
            Some(ErrorCode::ExceedsMaxTransferLimit)
        } else if current_slot == self.slot_last_transferred {
            Some(ErrorCode::ExceedsMaxTransactionsPerSlot)
        } else if self.base_accumulated(current_time) + amount > self.period_transfer_limit {
            Some(ErrorCode::ExceedsTransferLimitPerPeriod)
        } else {
            None
        }
    }

    /// The record after an admitted debit: the accumulator takes the debit
    /// (on top of zero if the window rolled over), the anchor moves to
    /// `current_time` exactly when the window rolled over, and the slot of
    /// the last transfer becomes `current_slot`. Configuration fields are
    /// untouched.
    pub open spec fn debited(self, amount: u64, current_time: u64, current_slot: u64) -> UserDelegateState {
        UserDelegateState {
            period_transferred_amount: (self.base_accumulated(current_time) + amount) as u64,
            period_timestamp_last_reset: if self.period_elapsed(current_time) {
                current_time
            } else {
                self.period_timestamp_last_reset
            },
            slot_last_transferred: current_slot,
            ..self
        }
    }

    /// Validate one requested debit against the delegate's limits and, only
    /// if every check passes, commit it to the record. All checks run before
    /// any write: a failed debit returns the first failing check's error and
    /// leaves the record untouched.
    pub fn validate_debit_and_update(
        &mut self,
        amount: u64,
        current_time: u64,
        current_slot: u64,
    ) -> (r: Result<(), ErrorCode>)
        ensures
            r == match old(self).debit_error(amount, current_time, current_slot) {
                Some(e) => Err::<(), ErrorCode>(e),
                None => Ok::<(), ErrorCode>(()),
            },
            *final(self) == if old(self).debit_error(amount, current_time, current_slot) is None {
                old(self).debited(amount, current_time, current_slot)
            } else {
                *old(self)
            },
            r is Ok ==> final(self).wf(),
    {
        if amount > self.per_transfer_limit {
            return Err(ErrorCode::ExceedsMaxTransferLimit);
        }

        if self.slot_last_transferred == current_slot {
            return Err(ErrorCode::ExceedsMaxTransactionsPerSlot);
        }

        let elapsed = current_time > self.period_timestamp_last_reset
            && current_time - self.period_timestamp_last_reset
                > self.transfer_limit_period_seconds as u64;
        let base: u64 = if elapsed {
            0
        } else {
            self.period_transferred_amount
        };
        let total: u64 = match base.checked_add(amount) {
            Some(t) => t,
            None => {
                return Err(ErrorCode::ExceedsTransferLimitPerPeriod);
            },
        };
        if total > self.period_transfer_limit {
            return Err(ErrorCode::ExceedsTransferLimitPerPeriod);
        }

        // Only update state after all validations pass.
        if elapsed {
            self.period_timestamp_last_reset = current_time;
        }
        self.period_transferred_amount = total;
        self.slot_last_transferred = current_slot;
        Ok(())
    }
}

/// A request over the per-transfer limit is always refused, and the check it
/// fails is exactly the per-transfer check. Together with
/// `validate_debit_and_update`'s contract, the failed call leaves the record
/// byte-for-byte unchanged.
pub proof fn lemma_per_transfer_limit_rejected(
    s: UserDelegateState,
    amount: u64,
    current_time: u64,
    current_slot: u64,
)
    requires
        amount > s.per_transfer_limit,
    ensures
        s.debit_error(amount, current_time, current_slot) == Some(
            ErrorCode::ExceedsMaxTransferLimit,
        ),
{
}

/// One debit per slot: once a debit has been admitted in a slot, no further
/// debit is admitted against the same record in that slot, whatever its
/// amount or timestamp. When the second request respects the per-transfer
/// limit, the check it fails is exactly the one-debit-per-slot bound (a
/// larger request already fails the per-transfer check). Together with
/// `validate_debit_and_update`'s contract, the failed second call also
/// leaves the record unchanged.
pub proof fn lemma_one_debit_per_slot(
    s: UserDelegateState,
    amount1: u64,
    current_time1: u64,
    amount2: u64,
    current_time2: u64,
    current_slot: u64,
)
    requires
        s.debit_error(amount1, current_time1, current_slot) is None,
    ensures
        s.debited(amount1, current_time1, current_slot).debit_error(
            amount2,
            current_time2,
            current_slot,
        ) is Some,
        amount2 <= s.per_transfer_limit ==> s.debited(amount1, current_time1, current_slot)
            .debit_error(amount2, current_time2, current_slot)
            == Some(ErrorCode::ExceedsMaxTransactionsPerSlot),
{
}

} // verus!
