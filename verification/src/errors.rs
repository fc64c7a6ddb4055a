use vstd::prelude::*;

verus! {

/// Every way in which a vault operation can be refused.
///
/// An operation that is refused changes nothing: the accounts it was handed
/// are left exactly as they were.
#[derive(Clone, Copy, Debug, PartialEq, Eq)]
pub enum SteelError {
    /// No bump found for Vault PDA!
    ///
    /// The address of a new vault could not be settled.
    MissingVaultBump,
    /// Unlock time cannot be in the past!
    ///
    /// The unlock time asked for lies before the current time.
    InvalidUnlockTime,
    /// Unlock amount must be greater than 0!
    ///
    /// The unlock amount asked for is zero.
    InvalidUnlockAmount,
    /// Can't update an active vault!
    VaultActive,
    /// At least one condition must be set!
    ///
    /// A vault without any condition cannot be activated.
    MissingCondition,
    /// Vault must be unlocked!
    ///
    /// No operation reports this at present.
    VaultUnlocked,
    /// Failed to close vault!
    ///
    /// The vault is active and none of its conditions holds yet.
    FailedToCloseVault,
    /// The caller did not sign, or is not the vault's authority.
    Unauthorized,
    /// There is no vault in the account that the operation was pointed at.
    NotFound,
}

} // verus!
