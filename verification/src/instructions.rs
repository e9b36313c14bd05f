//! The operations of the engine: the permission hierarchy (platform admin →
//! merchant manager → debitor/destination allowlists → per-user delegate
//! limits) and the transfer orchestrator that ties authorization checks and
//! quota admission into one atomic debit decision.
//!
//! Every operation takes the caller's identity as the host verified it (the
//! library never implements signature checking itself) and, for the
//! configuration operations, the caller-supplied locator of the record to
//! touch, which must match the locator derived from the scope. On any error
//! the store is left exactly as it was: no partial mutation is ever visible.

use vstd::prelude::*;

use crate::errors::ErrorCode;
use crate::events::{
    AccountClosed, AdminUpdated, MerchantDebitorAddedOrUpdated, MerchantDestinationAddedOrUpdated,
    MerchantManagerAddedOrUpdated, UserDebited, UserDelegateAddedOrUpdated,
};
use crate::state::{
    AccountId, BridgeCardsState, MerchantDebitorState, MerchantDestinationState,
    MerchantManagerState, UserDelegateState,
};
use crate::store::{record_matches_key, records_wf, PermissionStore, Record, RecordKey};

verus! {

/// The platform admin on record, if the store has been initialized.
pub open spec fn admin_of(m: Map<RecordKey, Record>) -> Option<AccountId> {
    if m.dom().contains(RecordKey::PlatformAuthority) && m[RecordKey::PlatformAuthority] is State {
        Some(m[RecordKey::PlatformAuthority]->State_0.admin)
    } else {
        None
    }
}

/// True when `id` holds the platform authority.
pub open spec fn is_admin(m: Map<RecordKey, Record>, id: AccountId) -> bool {
    admin_of(m) == Some(id)
}

/// The manager of `merchant_id` on record, if any.
pub open spec fn manager_of(m: Map<RecordKey, Record>, merchant_id: u64) -> Option<AccountId> {
    let key = RecordKey::MerchantManager { merchant_id };
    if m.dom().contains(key) && m[key] is Manager {
        Some(m[key]->Manager_0.manager)
    } else {
        None
    }
}

/// True when `id` is the manager of `merchant_id`.
pub open spec fn is_manager(m: Map<RecordKey, Record>, merchant_id: u64, id: AccountId) -> bool {
    manager_of(m, merchant_id) == Some(id)
}

/// True when `debitor` is on `merchant_id`'s allowlist for `mint`.
pub open spec fn debitor_allowed(
    m: Map<RecordKey, Record>,
    merchant_id: u64,
    mint: AccountId,
    debitor: AccountId,
) -> bool {
    let key = RecordKey::MerchantDebitor { merchant_id, mint, debitor };
    m.dom().contains(key) && (m[key] matches Record::Debitor(d) && d.allowed)
}

/// True when `destination` is on `merchant_id`'s destination allowlist for `mint`.
pub open spec fn destination_allowed(
    m: Map<RecordKey, Record>,
    merchant_id: u64,
    mint: AccountId,
    destination: AccountId,
) -> bool {
    let key = RecordKey::MerchantDestination { merchant_id, mint, destination };
    m.dom().contains(key) && (m[key] matches Record::Destination(d) && d.allowed)
}

/// The delegate record for `user_token_account` under `merchant_id` and
/// `mint`, if one is configured.
pub open spec fn delegate_of(
    m: Map<RecordKey, Record>,
    merchant_id: u64,
    mint: AccountId,
    user_token_account: AccountId,
) -> Option<UserDelegateState> {
    let key = RecordKey::UserDelegate { merchant_id, mint, user_token_account };
    if m.dom().contains(key) && m[key] is Delegate {
        Some(m[key]->Delegate_0)
    } else {
        None
    }
}

proof fn lemma_records_wf_insert(m: Map<RecordKey, Record>, key: RecordKey, record: Record)
    requires
        records_wf(m),
        record_matches_key(key, record),
        record matches Record::Delegate(d) ==> d.wf(),
    ensures
        records_wf(m.insert(key, record)),
{
    assert forall|k: RecordKey| #[trigger] m.insert(key, record).dom().contains(k) implies {
        &&& record_matches_key(k, m.insert(key, record)[k])
        &&& (m.insert(key, record)[k] matches Record::Delegate(d) ==> d.wf())
    } by {
        if k != key {
            assert(m.dom().contains(k));
        }
    }
}

proof fn lemma_records_wf_remove(m: Map<RecordKey, Record>, key: RecordKey)
    requires
        records_wf(m),
    ensures
        records_wf(m.remove(key)),
{
    assert forall|k: RecordKey| #[trigger] m.remove(key).dom().contains(k) implies {
        &&& record_matches_key(k, m.remove(key)[k])
        &&& (m.remove(key)[k] matches Record::Delegate(d) ==> d.wf())
    } by {
        assert(m.dom().contains(k));
    }
}

/// Create the platform authority record and make `payer` the admin. This is
/// the one-time bootstrap: it fails with `AlreadyInitialized` if the
/// authority record exists, so at most one ever does.
pub fn initialize(
    store: &mut PermissionStore,
    payer: AccountId,
    state_key: RecordKey,
    bump: u8,
) -> (r: Result<(), ErrorCode>)
    requires
        old(store).wf(),
    ensures
        final(store).wf(),
        state_key != RecordKey::PlatformAuthority ==> r == Err::<(), ErrorCode>(
            ErrorCode::InvalidPda,
        ) && *final(store) == *old(store),
        state_key == RecordKey::PlatformAuthority && old(store)@.dom().contains(
            RecordKey::PlatformAuthority,
        ) ==> r == Err::<(), ErrorCode>(ErrorCode::AlreadyInitialized) && *final(store) == *old(
            store,
        ),
        state_key == RecordKey::PlatformAuthority && !old(store)@.dom().contains(
            RecordKey::PlatformAuthority,
        ) ==> {
            &&& r == Ok::<(), ErrorCode>(())
            &&& final(store)@ == old(store)@.insert(
                RecordKey::PlatformAuthority,
                Record::State(BridgeCardsState { admin: payer, bump }),
            )
        },
        records_wf(old(store)@) ==> records_wf(final(store)@),
{
    if !matches!(state_key, RecordKey::PlatformAuthority) {
        return Err(ErrorCode::InvalidPda);
    }
    if store.get(RecordKey::PlatformAuthority).is_some() {
        return Err(ErrorCode::AlreadyInitialized);
    }
    let record = Record::State(BridgeCardsState { admin: payer, bump });
    store.upsert(RecordKey::PlatformAuthority, record);
    proof {
        if records_wf(old(store)@) {
            lemma_records_wf_insert(old(store)@, RecordKey::PlatformAuthority, record);
        }
    }
    Ok(())
}

/// Transfer the platform authority. The host must have verified proofs from
/// both the current and the prospective admin on the same request; the
/// operation itself checks that `admin` matches the authority on record and
/// then replaces it with `new_admin`.
pub fn update_admin(
    store: &mut PermissionStore,
    admin: AccountId,
    new_admin: AccountId,
    state_key: RecordKey,
) -> (r: Result<AdminUpdated, ErrorCode>)
    requires
        old(store).wf(),
    ensures
        final(store).wf(),
        state_key != RecordKey::PlatformAuthority ==> r == Err::<AdminUpdated, ErrorCode>(
            ErrorCode::InvalidPda,
        ) && *final(store) == *old(store),
        state_key == RecordKey::PlatformAuthority && !is_admin(old(store)@, admin) ==> r == Err::<
            AdminUpdated,
            ErrorCode,
        >(ErrorCode::Unauthorized) && *final(store) == *old(store),
        state_key == RecordKey::PlatformAuthority && is_admin(old(store)@, admin) ==> {
            &&& r == Ok::<AdminUpdated, ErrorCode>(AdminUpdated { admin: new_admin })
            &&& final(store)@ == old(store)@.insert(
                RecordKey::PlatformAuthority,
                Record::State(
                    BridgeCardsState {
                        admin: new_admin,
                        bump: old(store)@[RecordKey::PlatformAuthority]->State_0.bump,
                    },
                ),
            )
        },
        records_wf(old(store)@) ==> records_wf(final(store)@),
{
    if !matches!(state_key, RecordKey::PlatformAuthority) {
        return Err(ErrorCode::InvalidPda);
    }
    let state = match store.get(RecordKey::PlatformAuthority) {
        Some(Record::State(s)) => s,
        _ => {
            return Err(ErrorCode::Unauthorized);
        },
    };
    if state.admin != admin {
        return Err(ErrorCode::Unauthorized);
    }
    let record = Record::State(BridgeCardsState { admin: new_admin, bump: state.bump });
    store.upsert(RecordKey::PlatformAuthority, record);
    proof {
        if records_wf(old(store)@) {
            lemma_records_wf_insert(old(store)@, RecordKey::PlatformAuthority, record);
        }
    }
    Ok(AdminUpdated { admin: new_admin })
}

/// Create or update the manager record of a merchant. Only the platform
/// admin may call this; the previous manager, if any, is returned in the
/// event for audit.
pub fn add_or_update_merchant_manager(
    store: &mut PermissionStore,
    admin: AccountId,
    merchant_id: u64,
    manager: AccountId,
    manager_key: RecordKey,
    bump: u8,
) -> (r: Result<MerchantManagerAddedOrUpdated, ErrorCode>)
    requires
        old(store).wf(),
    ensures
        final(store).wf(),
        manager_key != (RecordKey::MerchantManager { merchant_id }) ==> r == Err::<
            MerchantManagerAddedOrUpdated,
            ErrorCode,
        >(ErrorCode::InvalidPda) && *final(store) == *old(store),
        manager_key == (RecordKey::MerchantManager { merchant_id }) && !is_admin(
            old(store)@,
            admin,
        ) ==> r == Err::<MerchantManagerAddedOrUpdated, ErrorCode>(ErrorCode::Unauthorized)
            && *final(store) == *old(store),
        manager_key == (RecordKey::MerchantManager { merchant_id }) && is_admin(
            old(store)@,
            admin,
        ) ==> {
            &&& r == Ok::<MerchantManagerAddedOrUpdated, ErrorCode>(
                MerchantManagerAddedOrUpdated {
                    merchant_id,
                    manager,
                    previous_manager: manager_of(old(store)@, merchant_id),
                },
            )
            &&& final(store)@ == old(store)@.insert(
                RecordKey::MerchantManager { merchant_id },
                Record::Manager(MerchantManagerState { manager, bump }),
            )
        },
        records_wf(old(store)@) ==> records_wf(final(store)@),
{
    let expected_key = RecordKey::MerchantManager { merchant_id };
    if manager_key != expected_key {
        return Err(ErrorCode::InvalidPda);
    }
    let authorized = match store.get(RecordKey::PlatformAuthority) {
        Some(Record::State(s)) => s.admin == admin,
        _ => false,
    };
    if !authorized {
        return Err(ErrorCode::Unauthorized);
    }
    let record = Record::Manager(MerchantManagerState { manager, bump });
    let prev = store.upsert(expected_key, record);
    proof {
        if records_wf(old(store)@) {
            lemma_records_wf_insert(old(store)@, expected_key, record);
        }
    }
    let previous_manager = match prev {
        Some(Record::Manager(ms)) => Some(ms.manager),
        _ => None,
    };
    Ok(MerchantManagerAddedOrUpdated { merchant_id, manager, previous_manager })
}

/// Create or update the allowlist record of a debitor for one merchant and
/// asset. Only that merchant's manager may call this; the debitor itself
/// need not consent, so the manager can unilaterally revoke by storing
/// `allowed == false`.
pub fn add_or_update_merchant_debitor(
    store: &mut PermissionStore,
    manager: AccountId,
    merchant_id: u64,
    mint: AccountId,
    debitor: AccountId,
    allowed: bool,
    debitor_key: RecordKey,
    bump: u8,
) -> (r: Result<MerchantDebitorAddedOrUpdated, ErrorCode>)
    requires
        old(store).wf(),
    ensures
        final(store).wf(),
        debitor_key != (RecordKey::MerchantDebitor { merchant_id, mint, debitor }) ==> r == Err::<
            MerchantDebitorAddedOrUpdated,
            ErrorCode,
        >(ErrorCode::InvalidPda) && *final(store) == *old(store),
        debitor_key == (RecordKey::MerchantDebitor { merchant_id, mint, debitor }) && !is_manager(
            old(store)@,
            merchant_id,
            manager,
        ) ==> r == Err::<MerchantDebitorAddedOrUpdated, ErrorCode>(ErrorCode::Unauthorized)
            && *final(store) == *old(store),
        debitor_key == (RecordKey::MerchantDebitor { merchant_id, mint, debitor }) && is_manager(
            old(store)@,
            merchant_id,
            manager,
        ) ==> {
            &&& r == Ok::<MerchantDebitorAddedOrUpdated, ErrorCode>(
                MerchantDebitorAddedOrUpdated {
                    merchant_id,
                    state_pda: debitor_key,
                    debitor,
                    previous_state: debitor_allowed(old(store)@, merchant_id, mint, debitor),
                    new_state: allowed,
                },
            )
            &&& final(store)@ == old(store)@.insert(
                debitor_key,
                Record::Debitor(MerchantDebitorState { allowed, bump }),
            )
        },
        records_wf(old(store)@) ==> records_wf(final(store)@),
{
    let expected_key = RecordKey::MerchantDebitor { merchant_id, mint, debitor };
    if debitor_key != expected_key {
        return Err(ErrorCode::InvalidPda);
    }
    let authorized = match store.get(RecordKey::MerchantManager { merchant_id }) {
        Some(Record::Manager(ms)) => ms.manager == manager,
        _ => false,
    };
    if !authorized {
        return Err(ErrorCode::Unauthorized);
    }
    let record = Record::Debitor(MerchantDebitorState { allowed, bump });
    let prev = store.upsert(expected_key, record);
    proof {
        if records_wf(old(store)@) {
            lemma_records_wf_insert(old(store)@, expected_key, record);
        }
    }
    let previous_state = match prev {
        Some(Record::Debitor(d)) => d.allowed,
        _ => false,
    };
    Ok(
        MerchantDebitorAddedOrUpdated {
            merchant_id,
            state_pda: expected_key,
            debitor,
            previous_state,
            new_state: allowed,
        },
    )
}

/// Create or update the allowlist record of a destination token account for
/// one merchant and asset. Only the platform admin may call this.
pub fn add_or_update_merchant_destination(
    store: &mut PermissionStore,
    admin: AccountId,
    merchant_id: u64,
    mint: AccountId,
    destination: AccountId,
    allowed: bool,
    destination_key: RecordKey,
    bump: u8,
) -> (r: Result<MerchantDestinationAddedOrUpdated, ErrorCode>)
    requires
        old(store).wf(),
    ensures
        final(store).wf(),
        destination_key != (RecordKey::MerchantDestination { merchant_id, mint, destination })
            ==> r == Err::<MerchantDestinationAddedOrUpdated, ErrorCode>(ErrorCode::InvalidPda)
            && *final(store) == *old(store),
        destination_key == (RecordKey::MerchantDestination { merchant_id, mint, destination })
            && !is_admin(old(store)@, admin) ==> r == Err::<
            MerchantDestinationAddedOrUpdated,
            ErrorCode,
        >(ErrorCode::Unauthorized) && *final(store) == *old(store),
        destination_key == (RecordKey::MerchantDestination { merchant_id, mint, destination })
            && is_admin(old(store)@, admin) ==> {
            &&& r == Ok::<MerchantDestinationAddedOrUpdated, ErrorCode>(
                MerchantDestinationAddedOrUpdated {
                    merchant_id,
                    mint,
                    destination,
                    state_pda: destination_key,
                    previous_state: destination_allowed(old(store)@, merchant_id, mint, destination),
                    new_state: allowed,
                },
            )
            &&& final(store)@ == old(store)@.insert(
                destination_key,
                Record::Destination(
                    MerchantDestinationState { allowed: allowed, bump },
                ),
            )
        },
        records_wf(old(store)@) ==> records_wf(final(store)@),
{
    let expected_key = RecordKey::MerchantDestination { merchant_id, mint, destination };
    if destination_key != expected_key {
        return Err(ErrorCode::InvalidPda);
    }
    let authorized = match store.get(RecordKey::PlatformAuthority) {
        Some(Record::State(s)) => s.admin == admin,
        _ => false,
    };
    if !authorized {
        return Err(ErrorCode::Unauthorized);
    }
    let record = Record::Destination(MerchantDestinationState { allowed: allowed, bump });
    let prev = store.upsert(expected_key, record);
    proof {
        if records_wf(old(store)@) {
            lemma_records_wf_insert(old(store)@, expected_key, record);
        }
    }
    let previous_state = match prev {
        Some(Record::Destination(d)) => d.allowed,
        _ => false,
    };
    Ok(
        MerchantDestinationAddedOrUpdated {
            merchant_id,
            mint,
            destination,
            state_pda: expected_key,
            previous_state,
            new_state: allowed,
        },
    )
}

/// Create or update the delegate limits of one user source account for one
/// merchant and asset. Only that merchant's manager may call this.
/// Configuring a delegate unconditionally resets the quota sub-state: the
/// accumulator, the window anchor and the last-transfer slot all return to
/// their initial values.
pub fn add_or_update_user_delegate(
    store: &mut PermissionStore,
    manager: AccountId,
    merchant_id: u64,
    mint: AccountId,
    user_token_account: AccountId,
    max_transfer_limit: u64,
    period_transfer_limit: u64,
    transfer_limit_period: u32,
    delegate_key: RecordKey,
    bump: u8,
) -> (r: Result<UserDelegateAddedOrUpdated, ErrorCode>)
    requires
        old(store).wf(),
    ensures
        final(store).wf(),
        delegate_key != (RecordKey::UserDelegate { merchant_id, mint, user_token_account }) ==> r
            == Err::<UserDelegateAddedOrUpdated, ErrorCode>(ErrorCode::InvalidPda) && *final(store)
            == *old(store),
        delegate_key == (RecordKey::UserDelegate { merchant_id, mint, user_token_account })
            && !is_manager(old(store)@, merchant_id, manager) ==> r == Err::<
            UserDelegateAddedOrUpdated,
            ErrorCode,
        >(ErrorCode::Unauthorized) && *final(store) == *old(store),
        delegate_key == (RecordKey::UserDelegate { merchant_id, mint, user_token_account })
            && is_manager(old(store)@, merchant_id, manager) ==> {
            &&& r == Ok::<UserDelegateAddedOrUpdated, ErrorCode>(
                UserDelegateAddedOrUpdated {
                    merchant_id,
                    mint,
                    user_ata: user_token_account,
                    user_delegate: delegate_key,
                    previous: delegate_of(old(store)@, merchant_id, mint, user_token_account),
                },
            )
            &&& final(store)@ == old(store)@.insert(
                delegate_key,
                Record::Delegate(
                    UserDelegateState {
                        per_transfer_limit: max_transfer_limit,
                        period_transfer_limit,
                        period_transferred_amount: 0,
                        period_timestamp_last_reset: 0,
                        transfer_limit_period_seconds: transfer_limit_period,
                        slot_last_transferred: 0,
                        bump,
                    },
                ),
            )
        },
        records_wf(old(store)@) ==> records_wf(final(store)@),
{
    let expected_key = RecordKey::UserDelegate { merchant_id, mint, user_token_account };
    if delegate_key != expected_key {
        return Err(ErrorCode::InvalidPda);
    }
    let authorized = match store.get(RecordKey::MerchantManager { merchant_id }) {
        Some(Record::Manager(ms)) => ms.manager == manager,
        _ => false,
    };
    if !authorized {
        return Err(ErrorCode::Unauthorized);
    }
    let record = Record::Delegate(
        UserDelegateState {
            per_transfer_limit: max_transfer_limit,
            period_transfer_limit,
            period_transferred_amount: 0,
            period_timestamp_last_reset: 0,
            transfer_limit_period_seconds: transfer_limit_period,
            slot_last_transferred: 0,
            bump,
        },
    );
    let prev = store.upsert(expected_key, record);
    proof {
        if records_wf(old(store)@) {
            lemma_records_wf_insert(old(store)@, expected_key, record);
        }
    }
    let previous = match prev {
        Some(Record::Delegate(d)) => Some(d),
        _ => None,
    };
    Ok(
        UserDelegateAddedOrUpdated {
            merchant_id,
            mint,
            user_ata: user_token_account,
            user_delegate: expected_key,
            previous,
        },
    )
}

/// Remove a record from the store so the host can reclaim its storage. Only
/// the platform admin may call this, and the singleton platform authority
/// record itself is never removed.
pub fn close_account(store: &mut PermissionStore, admin: AccountId, account_key: RecordKey) -> (r:
    Result<AccountClosed, ErrorCode>)
    requires
        old(store).wf(),
    ensures
        final(store).wf(),
        !is_admin(old(store)@, admin) ==> r == Err::<AccountClosed, ErrorCode>(
            ErrorCode::Unauthorized,
        ) && *final(store) == *old(store),
        is_admin(old(store)@, admin) && (account_key == RecordKey::PlatformAuthority || !old(
            store,
        )@.dom().contains(account_key)) ==> r == Err::<AccountClosed, ErrorCode>(
            ErrorCode::InvalidPda,
        ) && *final(store) == *old(store),
        is_admin(old(store)@, admin) && account_key != RecordKey::PlatformAuthority && old(
            store,
        )@.dom().contains(account_key) ==> {
            &&& r == Ok::<AccountClosed, ErrorCode>(AccountClosed { account: account_key })
            &&& final(store)@ == old(store)@.remove(account_key)
        },
        records_wf(old(store)@) ==> records_wf(final(store)@),
{
    let authorized = match store.get(RecordKey::PlatformAuthority) {
        Some(Record::State(s)) => s.admin == admin,
        _ => false,
    };
    if !authorized {
        return Err(ErrorCode::Unauthorized);
    }
    if matches!(account_key, RecordKey::PlatformAuthority) {
        return Err(ErrorCode::InvalidPda);
    }
    match store.remove(account_key) {
        Some(_) => {
            proof {
                if records_wf(old(store)@) {
                    lemma_records_wf_remove(old(store)@, account_key);
                }
            }
            Ok(AccountClosed { account: account_key })
        },
        None => Err(ErrorCode::InvalidPda),
    }
}

/// The first check a debit request fails against a given store, or `None`
/// when it is admitted. The checks run in the orchestrator's order: debitor
/// allowlist, destination allowlist, delegate existence, asset match, then
/// the delegate's own quota checks.
pub open spec fn debit_user_error(
    m: Map<RecordKey, Record>,
    merchant_id: u64,
    mint: AccountId,
    debitor: AccountId,
    user_token_account: AccountId,
    destination_token_account: AccountId,
    user_token_mint: AccountId,
    destination_token_mint: AccountId,
    amount: u64,
    current_time: u64,
    current_slot: u64,
) -> Option<ErrorCode> {
    if !debitor_allowed(m, merchant_id, mint, debitor) {
        Some(ErrorCode::Unauthorized)
    } else if !destination_allowed(m, merchant_id, mint, destination_token_account) {
        Some(ErrorCode::Unauthorized)
    } else if delegate_of(m, merchant_id, mint, user_token_account) is None {
        Some(ErrorCode::Unauthorized)
    } else if user_token_mint != mint || destination_token_mint != mint {
        Some(ErrorCode::MintMismatch)
    } else {
        delegate_of(m, merchant_id, mint, user_token_account).unwrap().debit_error(
            amount,
            current_time,
            current_slot,
        )
    }
}

/// The transfer orchestrator: decide one debit request. The debitor and the
/// destination must be allowed for the merchant and asset, a delegate record
/// must exist for the user source account, the source and destination token
/// accounts must carry the named asset, and the delegate's quota checks must
/// admit the amount. Only then is the quota committed and the debit event
/// returned; the host moves the value as the event says and must apply both
/// together or not at all. On any error the store is byte-for-byte
/// unchanged, so a failed request leaves no trace — in particular, a revoked
/// debitor is refused with `Unauthorized` whatever quota headroom remains.
pub fn debit_user(
    store: &mut PermissionStore,
    merchant_id: u64,
    mint: AccountId,
    debitor: AccountId,
    user_token_account: AccountId,
    destination_token_account: AccountId,
    user_token_mint: AccountId,
    destination_token_mint: AccountId,
    amount: u64,
    current_time: u64,
    current_slot: u64,
) -> (r: Result<UserDebited, ErrorCode>)
    requires
        old(store).wf(),
    ensures
        final(store).wf(),
        r matches Err(e) ==> Some(e) == debit_user_error(
            old(store)@,
            merchant_id,
            mint,
            debitor,
            user_token_account,
            destination_token_account,
            user_token_mint,
            destination_token_mint,
            amount,
            current_time,
            current_slot,
        ) && *final(store) == *old(store),
        r matches Ok(ev) ==> {
            &&& debit_user_error(
                old(store)@,
                merchant_id,
                mint,
                debitor,
                user_token_account,
                destination_token_account,
                user_token_mint,
                destination_token_mint,
                amount,
                current_time,
                current_slot,
            ) is None
            &&& final(store)@ == old(store)@.insert(
                RecordKey::UserDelegate { merchant_id, mint, user_token_account },
                Record::Delegate(
                    delegate_of(old(store)@, merchant_id, mint, user_token_account).unwrap()
                        .debited(amount, current_time, current_slot),
                ),
            )
            &&& ev == (UserDebited {
                debitor,
                user_delegate: RecordKey::UserDelegate { merchant_id, mint, user_token_account },
                merchant_id,
                user_ata: user_token_account,
                destination_ata: destination_token_account,
                mint,
                amount,
            })
        },
        !debitor_allowed(old(store)@, merchant_id, mint, debitor) ==> r == Err::<
            UserDebited,
            ErrorCode,
        >(ErrorCode::Unauthorized) && *final(store) == *old(store),
        records_wf(old(store)@) ==> records_wf(final(store)@),
{
    let debitor_key = RecordKey::MerchantDebitor { merchant_id, mint, debitor };
    let debitor_ok = match store.get(debitor_key) {
        Some(Record::Debitor(d)) => d.allowed,
        _ => false,
    };
    if !debitor_ok {
        return Err(ErrorCode::Unauthorized);
    }
    let destination_key = RecordKey::MerchantDestination {
        merchant_id,
        mint,
        destination: destination_token_account,
    };
    let destination_ok = match store.get(destination_key) {
        Some(Record::Destination(d)) => d.allowed,
        _ => false,
    };
    if !destination_ok {
        return Err(ErrorCode::Unauthorized);
    }
    let delegate_key = RecordKey::UserDelegate { merchant_id, mint, user_token_account };
    let mut delegate = match store.get(delegate_key) {
        Some(Record::Delegate(d)) => d,
        _ => {
            return Err(ErrorCode::Unauthorized);
        },
    };
    if user_token_mint != mint || destination_token_mint != mint {
        return Err(ErrorCode::MintMismatch);
    }
    match delegate.validate_debit_and_update(amount, current_time, current_slot) {
        Ok(()) => {},
        Err(e) => {
            return Err(e);
        },
    }
    let record = Record::Delegate(delegate);
    store.upsert(delegate_key, record);
    proof {
        if records_wf(old(store)@) {
            lemma_records_wf_insert(old(store)@, delegate_key, record);
        }
    }
    Ok(
        UserDebited {
            debitor,
            user_delegate: delegate_key,
            merchant_id,
            user_ata: user_token_account,
            destination_ata: destination_token_account,
            mint,
            amount,
        },
    )
}

} // verus!
