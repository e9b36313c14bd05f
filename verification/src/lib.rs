//! Bridge Cards: a hierarchical authorization and quota-enforcement engine for
//! delegated value transfers between user accounts and merchant destinations.
//!
//! The library is organised around four components:
//! - a permission store ([`store`]): a keyed lookup from a record locator to a
//!   typed permission record;
//! - a permission hierarchy ([`instructions`]): the platform admin appoints
//!   merchant managers, managers maintain debitor allowlists and per-user
//!   delegate limits, and the admin maintains destination allowlists;
//! - a delegate quota engine ([`state`]): the per-delegate rate-limiting state
//!   machine that validates and records each debit;
//! - a transfer orchestrator ([`instructions::debit_user`]): composes the
//!   authorization checks and quota admission into one atomic debit decision.
//!
//! The host around the library supplies verified signer identities, the clock
//! (timestamp and slot), performs the value movement that a successful debit
//! decision calls for, and delivers the returned notification events.

pub mod account_data;
pub mod errors;
pub mod events;
pub mod instructions;
pub mod state;
pub mod store;
