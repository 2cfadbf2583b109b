//! Custody primitives for a shared ledger.
//!
//! Two small state machines, each stored in a record at an address that is
//! derived from seeds and so has no private key:
//!
//! - the governance registry (`compliance_wrapper`): the one record of a
//!   deployment that names the approvers, their threshold and the delay of a
//!   governed action;
//! - the timelocked vault (`timelock_vault`): one record per asset and
//!   destination, whose custody balance leaves once, to the committed
//!   destination, and only from the unlock time on.
//!
//! The library decides; it moves nothing. Each operation takes the accounts
//! presented to it and, where the rule needs it, the clock reading, as plain
//! values, and returns either the reason for refusing or the instruction that
//! the ledger is to carry out, together with the record's new contents.

pub mod compliance_wrapper;
pub mod derivation;
pub mod distinct;
pub mod identity;
pub mod ledger;
pub mod timelock_vault;
