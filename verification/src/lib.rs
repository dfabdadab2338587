//! Ledger reconciliation core: arbitrary-precision token amounts, alias
//! registries for identities and symbols, and the planning and verification
//! logic that drives an account's balance to an exact target value against a
//! reserve (faucet) account.
//!
//! The ledger service itself, and the transport used to reach it, are outside
//! collaborators: this crate computes which transfer to issue and checks the
//! outcome; a driver performs the actual reads and sends.

pub mod amount;
pub mod errors;
pub mod identity;
pub mod model;
pub mod reconcile;
pub mod registry;
pub mod symbol;
pub mod transfer;
pub mod world;
