//! A vault that holds value for its owner and gives it back when a release
//! condition is met: a point in time has come, or the balance has grown past a
//! threshold.
//!
//! A vault starts out configurable. Its owner may edit the conditions freely
//! and may close it at any moment. Activating the vault freezes the
//! conditions; from then on it can only be closed once one of them holds.
//!
//! The operations work on plain values. Whoever hosts the vault reads the
//! accounts, the clock and the signatures, hands them in, and writes the
//! result back.

pub mod errors;
pub mod laws;
pub mod vault;

pub use errors::SteelError;
pub use vault::{
    activate, close, initialize, update, validate_conditions, Activate, Close, Initialize, Signer,
    Update, Vault, VaultAccount, VaultState, Wallet,
};
