//! Custody-and-delegation module for an on-ledger swap program.
//!
//! The module receives a fungible asset from a user, retains a basis-point
//! protocol fee for accounting, holds the balance in a custody account whose
//! signing authority is derived from the program's own identity, and builds a
//! delegated call to an external exchange that converts the custody balance
//! into the ledger's native currency, forwarding the proceeds to a receiver.
//! Governance (admin identity, fee rate, pause flag) gates every
//! money-movement path.

pub mod account;
pub mod authority;
pub mod custody;
pub mod errors;
pub mod events;
pub mod exchange;
pub mod fee;
pub mod governance;
pub mod program;
