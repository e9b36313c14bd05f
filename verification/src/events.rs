//! Notification values returned by successful operations. The engine never
//! reads them back: the host around the library delivers each to its
//! notification sink for external indexing.

use vstd::prelude::*;

use crate::state::{AccountId, UserDelegateState};
use crate::store::RecordKey;

verus! {

/// A merchant's debitor allowlist record was created or updated.
#[derive(Clone, Copy, Debug, PartialEq, Eq, Structural)]
pub struct MerchantDebitorAddedOrUpdated {
    pub merchant_id: u64,
    /// Locator of the debitor record touched.
    pub state_pda: RecordKey,
    pub debitor: AccountId,
    /// Whether the debitor was allowed before the call; false for a fresh record.
    pub previous_state: bool,
    pub new_state: bool,
}

/// A merchant's destination allowlist record was created or updated.
#[derive(Clone, Copy, Debug, PartialEq, Eq, Structural)]
pub struct MerchantDestinationAddedOrUpdated {
    pub merchant_id: u64,
    pub mint: AccountId,
    pub destination: AccountId,
    /// Locator of the destination record touched.
    pub state_pda: RecordKey,
    /// Whether the destination was allowed before the call; false for a fresh record.
    pub previous_state: bool,
    pub new_state: bool,
}

/// The platform authority was transferred.
#[derive(Clone, Copy, Debug, PartialEq, Eq, Structural)]
pub struct AdminUpdated {
    /// The new platform admin.
    pub admin: AccountId,
}

/// A user delegate's limits were configured.
#[derive(Clone, Copy, Debug, PartialEq, Eq, Structural)]
pub struct UserDelegateAddedOrUpdated {
    pub merchant_id: u64,
    pub mint: AccountId,
    pub user_ata: AccountId,
    /// Locator of the delegate record touched.
    pub user_delegate: RecordKey,
    /// The delegate record before the call, for audit; `None` for a fresh record.
    pub previous: Option<UserDelegateState>,
}

/// A record was removed from the store and its storage reclaimed.
#[derive(Clone, Copy, Debug, PartialEq, Eq, Structural)]
pub struct AccountClosed {
    /// Locator of the removed record.
    pub account: RecordKey,
}

/// A merchant's manager record was created or updated.
#[derive(Clone, Copy, Debug, PartialEq, Eq, Structural)]
pub struct MerchantManagerAddedOrUpdated {
    pub merchant_id: u64,
    pub manager: AccountId,
    /// The manager before the call, for audit; `None` for a fresh record.
    pub previous_manager: Option<AccountId>,
}

/// A debit was admitted; the host moves `amount` of `mint` from `user_ata`
/// to `destination_ata`, with the delegate record as the authorizing party.
#[derive(Clone, Copy, Debug, PartialEq, Eq, Structural)]
pub struct UserDebited {
    pub debitor: AccountId,
    /// Locator of the authorizing delegate record.
    pub user_delegate: RecordKey,
    pub merchant_id: u64,
    pub user_ata: AccountId,
    pub destination_ata: AccountId,
    pub mint: AccountId,
    pub amount: u64,
}

} // verus!
