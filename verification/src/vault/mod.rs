//! The vault's record, the accounts that a request names, and the four
//! operations: `initialize`, `update`, `activate` and `close`.
//!
//! Each operation takes the accounts of its request by `&mut` and answers
//! with `Ok` or with the reason for its refusal. What it does is written down
//! once, as the `outcome` of the request: the accounts afterwards and the
//! answer. A refusal leaves the accounts untouched.

use crate::errors::SteelError;
use vstd::prelude::*;

verus! {

/// The record of one vault.
///
/// A condition whose field is zero is not set.
#[derive(Clone, Copy, Debug, PartialEq, Eq)]
pub struct Vault {
    /// Vault owner
    pub authority: [u8; 32],
    /// Unlock time as a unix timestamp
    pub unlock_time: i64,
    /// Unlock amount in lamports
    pub unlock_amount: u64,
    /// Vault status
    pub active: bool,
    /// Vault PDA bump seed
    pub bump: u8,
}

impl Vault {
    /// At least one release condition is set.
    pub open spec fn has_condition(self) -> bool {
        self.unlock_time != 0 || self.unlock_amount != 0
    }

    /// An active vault carries at least one release condition.
    pub open spec fn wf(self) -> bool {
        self.active ==> self.has_condition()
    }

    /// The time condition is set and `now` has reached it.
    pub open spec fn time_reached(self, now: i64) -> bool {
        self.unlock_time != 0 && now >= self.unlock_time
    }

    /// The amount condition is set and `balance` has grown past it. A balance
    /// that only equals the threshold has not.
    pub open spec fn amount_exceeded(self, balance: u64) -> bool {
        self.unlock_amount != 0 && self.unlock_amount < balance
    }

    /// Whether the vault may be closed at time `now` while it holds `balance`:
    /// always while it is not active, and otherwise once one of its
    /// conditions holds.
    pub open spec fn release_permitted(self, now: i64, balance: u64) -> bool {
        !self.active || self.time_reached(now) || self.amount_exceeded(balance)
    }

    /// Decides whether the vault may be closed at time `now` while it holds
    /// `balance`.
    pub fn can_release(&self, now: i64, balance: u64) -> (permitted: bool)
        ensures
            permitted == self.release_permitted(now, balance),
    {
        // Inactive vaults can be closed with no further checks.
        // Active vaults can only be closed if at least one of the conditions is met.
        if self.active {
            if self.unlock_time != 0 {
                if now >= self.unlock_time {
                    return true;
                }
            }
            if self.unlock_amount != 0 {
                if self.unlock_amount < balance {
                    return true;
                }
            }
            false
        } else {
            true
        }
    }
}

/// The party that asks for an operation: its key, and whether the host found
/// its signature on the request.
#[derive(Clone, Copy, Debug, PartialEq, Eq)]
pub struct Signer {
    pub key: [u8; 32],
    pub is_signer: bool,
}

impl Signer {
    /// The party signed and is the authority of `vault`.
    pub open spec fn controls(self, vault: Vault) -> bool {
        self.is_signer && self.key == vault.authority
    }

    /// Decides whether the party signed and is the authority of `vault`.
    pub fn is_authority_of(&self, vault: &Vault) -> (yes: bool)
        ensures
            yes == self.controls(*vault),
    {
        self.is_signer && same_key(&self.key, &vault.authority)
    }
}

/// Where a vault stands in its life.
#[derive(Clone, Copy, Debug, PartialEq, Eq)]
pub enum VaultState {
    /// There is no vault.
    Absent,
    /// The vault is not active: its conditions can be edited, and it can be
    /// closed at any time.
    Configurable,
    /// The vault is active: its conditions are frozen, and it can be closed
    /// only once one of them holds.
    Binding,
}

/// The account at a vault's address: the value it holds and, while the vault
/// exists, its record.
#[derive(Clone, Copy, Debug, PartialEq, Eq)]
pub struct VaultAccount {
    pub lamports: u64,
    pub record: Option<Vault>,
}

impl VaultAccount {
    /// The record in this account, if there is one, is well formed.
    pub open spec fn wf(self) -> bool {
        self.record matches Some(vault) ==> vault.wf()
    }

    /// Where the vault in this account stands in its life.
    pub open spec fn spec_state(&self) -> VaultState {
        match self.record {
            None => VaultState::Absent,
            Some(vault) => if vault.active {
                VaultState::Binding
            } else {
                VaultState::Configurable
            },
        }
    }

    /// Tells where the vault in this account stands in its life.
    #[verifier::when_used_as_spec(spec_state)]
    pub fn state(&self) -> (state: VaultState)
        ensures
            state == self.spec_state(),
    {
        match self.record {
            None => VaultState::Absent,
            Some(vault) => if vault.active {
                VaultState::Binding
            } else {
                VaultState::Configurable
            },
        }
    }
}

/// An account that receives value.
#[derive(Clone, Copy, Debug, PartialEq, Eq)]
pub struct Wallet {
    pub lamports: u64,
}

/// The accounts of a request to create a vault.
#[derive(Clone, Copy, Debug, PartialEq, Eq)]
pub struct Initialize {
    pub authority: Signer,
    /// The account at the new vault's address. It holds no record yet.
    pub vault: VaultAccount,
}

/// The accounts of a request to edit a vault's conditions.
#[derive(Clone, Copy, Debug, PartialEq, Eq)]
pub struct Update {
    pub authority: Signer,
    pub vault: VaultAccount,
}

/// The accounts of a request to activate a vault.
#[derive(Clone, Copy, Debug, PartialEq, Eq)]
pub struct Activate {
    pub authority: Signer,
    pub vault: VaultAccount,
}

/// The accounts of a request to close a vault.
#[derive(Clone, Copy, Debug, PartialEq, Eq)]
pub struct Close {
    pub authority: Signer,
    /// Receives what the closed vault held. It need not be the authority's own.
    pub withdraw_address: Wallet,
    pub vault: VaultAccount,
}

/// The conditions that a request to create or edit a vault asks for, as the
/// pair of unlock time and unlock amount that the record will hold.
///
/// A time that is given must not lie before `now`, and an amount that is given
/// must not be zero. A condition that is left out comes back as zero: not set.
/// Where both are wrong, the time is reported.
pub open spec fn requested_conditions(
    now: i64,
    unlock_time: Option<i64>,
    unlock_amount: Option<u64>,
) -> Result<(i64, u64), SteelError> {
    if unlock_time matches Some(t) && t < now {
        Err(SteelError::InvalidUnlockTime)
    } else if unlock_amount == Some(0u64) {
        Err(SteelError::InvalidUnlockAmount)
    } else {
        Ok(
            (
                match unlock_time {
                    Some(t) => t,
                    None => 0,
                },
                match unlock_amount {
                    Some(a) => a,
                    None => 0,
                },
            ),
        )
    }
}

impl Initialize {
    /// What creating does at time `now`, where `bump` is the seed that the
    /// host found for the vault's address: the accounts afterwards, and the
    /// answer.
    ///
    /// The new vault belongs to the signer, is not active, and holds the
    /// conditions that were asked for. A request that is refused leaves the
    /// accounts as they were.
    pub open spec fn outcome(
        self,
        bump: Option<u8>,
        now: i64,
        unlock_time: Option<i64>,
        unlock_amount: Option<u64>,
    ) -> (Initialize, Result<(), SteelError>) {
        if !self.authority.is_signer {
            (self, Err(SteelError::Unauthorized))
        } else {
            match (bump, requested_conditions(now, unlock_time, unlock_amount)) {
                (None, _) => (self, Err(SteelError::MissingVaultBump)),
                (Some(_), Err(e)) => (self, Err(e)),
                (Some(bump), Ok((time, amount))) => (
                    Initialize {
                        authority: self.authority,
                        vault: VaultAccount {
                            lamports: self.vault.lamports,
                            record: Some(
                                Vault {
                                    authority: self.authority.key,
                                    unlock_time: time,
                                    unlock_amount: amount,
                                    active: false,
                                    bump,
                                },
                            ),
                        },
                    },
                    Ok(()),
                ),
            }
        }
    }
}

impl Update {
    /// What editing does at time `now`: the accounts afterwards, and the
    /// answer.
    ///
    /// Both conditions are replaced by what was asked for, so one that is left
    /// out is cleared. Nothing else changes. A request that is refused leaves
    /// the accounts as they were.
    pub open spec fn outcome(
        self,
        now: i64,
        unlock_time: Option<i64>,
        unlock_amount: Option<u64>,
    ) -> (Update, Result<(), SteelError>) {
        match self.vault.record {
            None => (self, Err(SteelError::NotFound)),
            Some(vault) => if !self.authority.controls(vault) {
                (self, Err(SteelError::Unauthorized))
            } else if vault.active {
                (self, Err(SteelError::VaultActive))
            } else {
                match requested_conditions(now, unlock_time, unlock_amount) {
                    Err(e) => (self, Err(e)),
                    Ok((time, amount)) => (
                        Update {
                            authority: self.authority,
                            vault: VaultAccount {
                                lamports: self.vault.lamports,
                                record: Some(
                                    Vault { unlock_time: time, unlock_amount: amount, ..vault },
                                ),
                            },
                        },
                        Ok(()),
                    ),
                }
            },
        }
    }
}

impl Activate {
    /// What activating does: the accounts afterwards, and the answer.
    ///
    /// A vault that is active already, and has a condition, stays as it is. A
    /// request that is refused leaves the accounts as they were.
    pub open spec fn outcome(self) -> (Activate, Result<(), SteelError>) {
        match self.vault.record {
            None => (self, Err(SteelError::NotFound)),
            Some(vault) => if !self.authority.controls(vault) {
                (self, Err(SteelError::Unauthorized))
            } else if !vault.has_condition() {
                (self, Err(SteelError::MissingCondition))
            } else {
                (
                    Activate {
                        authority: self.authority,
                        vault: VaultAccount {
                            lamports: self.vault.lamports,
                            record: Some(Vault { active: true, ..vault }),
                        },
                    },
                    Ok(()),
                )
            },
        }
    }
}

impl Close {
    /// The request is answered by closing the vault.
    pub open spec fn releases(self, now: i64) -> bool {
        self.vault.record matches Some(vault) && self.authority.controls(vault)
            && vault.release_permitted(now, self.vault.lamports)
    }

    /// What closing does at time `now`: the accounts afterwards, and the
    /// answer.
    ///
    /// The vault's account is left without record and without value, and the
    /// receiving account has taken all that it held. A request that is
    /// refused leaves the accounts as they were.
    pub open spec fn outcome(self, now: i64) -> (Close, Result<(), SteelError>) {
        match self.vault.record {
            None => (self, Err(SteelError::NotFound)),
            Some(vault) => if !self.authority.controls(vault) {
                (self, Err(SteelError::Unauthorized))
            } else if !vault.release_permitted(now, self.vault.lamports) {
                (self, Err(SteelError::FailedToCloseVault))
            } else {
                (
                    Close {
                        authority: self.authority,
                        withdraw_address: Wallet {
                            lamports: (self.withdraw_address.lamports + self.vault.lamports) as u64,
                        },
                        vault: VaultAccount { lamports: 0, record: None },
                    },
                    Ok(()),
                )
            },
        }
    }
}

/// Whether two keys are the same.
fn same_key(a: &[u8; 32], b: &[u8; 32]) -> (same: bool)
    ensures
        same == (*a == *b),
{
    let mut i: usize = 0;
    while i < 32
        invariant
            i <= 32,
            forall|j: int| 0 <= j < i ==> a[j] == b[j],
        decreases 32 - i,
    {
        if a[i] != b[i] {
            return false;
        }
        i += 1;
    }
    assert(*a =~= *b);
    true
}

/// Checks the conditions that a request asks for against the time `now`, and
/// gives the unlock time and unlock amount to store.
pub fn validate_conditions(
    now: i64,
    unlock_time: Option<i64>,
    unlock_amount: Option<u64>,
) -> (r: Result<(i64, u64), SteelError>)
    ensures
        r == requested_conditions(now, unlock_time, unlock_amount),
{
    let mut time: i64 = 0;
    let mut amount: u64 = 0;

    if let Some(unlock_time) = unlock_time {
        if unlock_time < now {
            return Err(SteelError::InvalidUnlockTime);
        }
        time = unlock_time;
    }
    if let Some(unlock_amount) = unlock_amount {
        if unlock_amount == 0 {
            return Err(SteelError::InvalidUnlockAmount);
        }
        amount = unlock_amount;
    }
    Ok((time, amount))
}

/// Creates the vault of `ctx.authority` in the account `ctx.vault`, at time
/// `now`. `bump` is the seed that the host found for the vault's address, if
/// it found one.
///
/// The account must not hold a vault yet. What it holds in value is not
/// touched.
pub fn initialize(
    ctx: &mut Initialize,
    bump: Option<u8>,
    now: i64,
    unlock_time: Option<i64>,
    unlock_amount: Option<u64>,
) -> (r: Result<(), SteelError>)
    requires
        old(ctx).vault.record is None,
    ensures
        (*final(ctx), r) == old(ctx).outcome(bump, now, unlock_time, unlock_amount),
        final(ctx).vault.wf(),
{
    if !ctx.authority.is_signer {
        return Err(SteelError::Unauthorized);
    }
    let bump = match bump {
        Some(bump) => bump,
        None => {
            return Err(SteelError::MissingVaultBump);
        },
    };
    let (unlock_time, unlock_amount) = match validate_conditions(now, unlock_time, unlock_amount) {
        Ok(conditions) => conditions,
        Err(e) => {
            return Err(e);
        },
    };

    ctx.vault.record = Some(
        Vault { authority: ctx.authority.key, unlock_time, unlock_amount, active: false, bump },
    );

    Ok(())
}

/// Replaces the conditions of the vault in `ctx.vault`, at time `now`.
///
/// Both conditions are reset, and then set to what is given: an update
/// without conditions clears them.
pub fn update(
    ctx: &mut Update,
    now: i64,
    unlock_time: Option<i64>,
    unlock_amount: Option<u64>,
) -> (r: Result<(), SteelError>)
    ensures
        (*final(ctx), r) == old(ctx).outcome(now, unlock_time, unlock_amount),
        old(ctx).vault.wf() ==> final(ctx).vault.wf(),
{
    let mut vault = match ctx.vault.record {
        Some(vault) => vault,
        None => {
            return Err(SteelError::NotFound);
        },
    };
    if !ctx.authority.is_authority_of(&vault) {
        return Err(SteelError::Unauthorized);
    }
    // Can't update an active vault.
    if vault.active {
        return Err(SteelError::VaultActive);
    }
    let (unlock_time, unlock_amount) = match validate_conditions(now, unlock_time, unlock_amount) {
        Ok(conditions) => conditions,
        Err(e) => {
            return Err(e);
        },
    };

    vault.unlock_time = unlock_time;
    vault.unlock_amount = unlock_amount;
    ctx.vault.record = Some(vault);

    Ok(())
}

/// Activates the vault in `ctx.vault`: from now on its conditions are frozen
/// and govern its release. The vault needs at least one condition for this.
///
/// Activating a vault that is active already changes nothing.
pub fn activate(ctx: &mut Activate) -> (r: Result<(), SteelError>)
    ensures
        (*final(ctx), r) == old(ctx).outcome(),
        old(ctx).vault.wf() ==> final(ctx).vault.wf(),
{
    let mut vault = match ctx.vault.record {
        Some(vault) => vault,
        None => {
            return Err(SteelError::NotFound);
        },
    };
    if !ctx.authority.is_authority_of(&vault) {
        return Err(SteelError::Unauthorized);
    }
    // At least one condition must be set.
    if vault.unlock_amount == 0 && vault.unlock_time == 0 {
        return Err(SteelError::MissingCondition);
    }

    vault.active = true;
    ctx.vault.record = Some(vault);

    Ok(())
}

/// Closes the vault in `ctx.vault` at time `now`, and hands all that its
/// account held to `ctx.withdraw_address`.
///
/// A vault that is not active closes unconditionally. An active one closes
/// only if its unlock time is set and has come, or its unlock amount is set
/// and the balance is strictly above it.
///
/// Where the vault is going to pay out, the sum must fit into the receiving
/// account.
pub fn close(ctx: &mut Close, now: i64) -> (r: Result<(), SteelError>)
    requires
        old(ctx).releases(now) ==> old(ctx).withdraw_address.lamports + old(ctx).vault.lamports
            <= u64::MAX,
    ensures
        (*final(ctx), r) == old(ctx).outcome(now),
        old(ctx).vault.wf() ==> final(ctx).vault.wf(),
{
    let vault = match ctx.vault.record {
        Some(vault) => vault,
        None => {
            return Err(SteelError::NotFound);
        },
    };
    if !ctx.authority.is_authority_of(&vault) {
        return Err(SteelError::Unauthorized);
    }
    if !vault.can_release(now, ctx.vault.lamports) {
        return Err(SteelError::FailedToCloseVault);
    }
    close_vault(&mut ctx.vault, &mut ctx.withdraw_address);

    Ok(())
}

/// Empties the vault's account into `withdraw_address` and removes the record.
fn close_vault(vault: &mut VaultAccount, withdraw_address: &mut Wallet)
    requires
        old(withdraw_address).lamports + old(vault).lamports <= u64::MAX,
    ensures
        *final(vault) == (VaultAccount { lamports: 0, record: None }),
        final(withdraw_address).lamports == old(withdraw_address).lamports + old(vault).lamports,
{
    let withdraw_amount = vault.lamports;
    vault.lamports = 0;
    vault.record = None;

    withdraw_address.lamports += withdraw_amount;
}

} // verus!
