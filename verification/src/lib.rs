//! The verified core of a payment escrow contract: a depositor locks an
//! amount of the payment token for a beneficiary; the administrator releases
//! or refunds it, either party may raise a dispute while the dispute window
//! is open, the administrator resolves disputes, and the beneficiary may
//! claim the funds on its own once the release time has passed.
//!
//! The host around the contract (storage, authorisation, the ledger clock
//! and the token contract) is not part of this crate: every operation takes
//! the authenticated caller and the ledger time as plain values, and returns
//! the token transfer that the host must perform for it.
mod contract;
pub mod laws;
pub mod model;
mod types;

pub use contract::PaymentEscrow;
pub use types::{Config, Escrow, EscrowError, EscrowStatus, Transfer};
