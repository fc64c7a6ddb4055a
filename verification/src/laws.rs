//! What holds of the vault's operations taken together.
//!
//! Each operation's contract says that it does what the `outcome` of its
//! request says. The statements here are about those outcomes.

use crate::errors::SteelError;
use crate::vault::{
    Activate, Close, Initialize, Update, Vault, VaultAccount, VaultState, Wallet,
};
use vstd::prelude::*;

verus! {

/// A request that is refused changes nothing, whichever operation it asked
/// for.
pub proof fn lemma_refusal_changes_nothing(
    create: Initialize,
    edit: Update,
    arm: Activate,
    end: Close,
    bump: Option<u8>,
    now: i64,
    unlock_time: Option<i64>,
    unlock_amount: Option<u64>,
)
    ensures
        ({
            let (after, answer) = create.outcome(bump, now, unlock_time, unlock_amount);
            answer is Err ==> after == create
        }),
        ({
            let (after, answer) = edit.outcome(now, unlock_time, unlock_amount);
            answer is Err ==> after == edit
        }),
        ({
            let (after, answer) = arm.outcome();
            answer is Err ==> after == arm
        }),
        ({
            let (after, answer) = end.outcome(now);
            answer is Err ==> after == end
        }),
{
}

/// A vault that has just been created can be closed by the party that created
/// it, at any time, whatever conditions it was given and whatever it holds by
/// then. Closing leaves no record behind and hands everything to the
/// receiving account.
pub proof fn lemma_new_vault_closes(
    ctx: Initialize,
    bump: Option<u8>,
    now: i64,
    unlock_time: Option<i64>,
    unlock_amount: Option<u64>,
    withdraw_address: Wallet,
    held: u64,
    later: i64,
)
    requires
        ctx.outcome(bump, now, unlock_time, unlock_amount).1 is Ok,
        withdraw_address.lamports + held <= u64::MAX,
    ensures
        ({
            let created = ctx.outcome(bump, now, unlock_time, unlock_amount).0;
            let request = Close {
                authority: created.authority,
                withdraw_address,
                vault: VaultAccount { lamports: held, record: created.vault.record },
            };
            let (closed, answer) = request.outcome(later);
            &&& answer is Ok
            &&& closed.vault.record is None
            &&& closed.vault.lamports == 0
            &&& closed.withdraw_address.lamports == withdraw_address.lamports + held
        }),
{
}

/// An active vault takes no edit: every update is refused and changes
/// nothing, and the one that its authority signs is refused because the
/// vault is active.
pub proof fn lemma_active_vault_rejects_update(
    ctx: Update,
    now: i64,
    unlock_time: Option<i64>,
    unlock_amount: Option<u64>,
)
    requires
        ctx.vault.record matches Some(vault) && vault.active,
    ensures
        ({
            let vault = ctx.vault.record->Some_0;
            let (after, answer) = ctx.outcome(now, unlock_time, unlock_amount);
            &&& after == ctx
            &&& answer is Err
            &&& ctx.authority.controls(vault) ==> answer == Err::<(), SteelError>(
                SteelError::VaultActive,
            )
        }),
{
}

/// An active vault that is locked by time alone stays shut before its unlock
/// time and opens from that time on.
pub proof fn lemma_time_lock_opens_on_time(ctx: Close, now: i64)
    requires
        ctx.vault.record matches Some(vault) && vault.active && vault.unlock_time != 0
            && vault.unlock_amount == 0 && ctx.authority.controls(vault),
        ctx.withdraw_address.lamports + ctx.vault.lamports <= u64::MAX,
    ensures
        ({
            let unlock_time = ctx.vault.record->Some_0.unlock_time;
            let (after, answer) = ctx.outcome(now);
            &&& now < unlock_time ==> after == ctx && answer == Err::<(), SteelError>(
                SteelError::FailedToCloseVault,
            )
            &&& now >= unlock_time ==> answer is Ok && after.vault.record is None
                && after.vault.lamports == 0 && after.withdraw_address.lamports
                == ctx.withdraw_address.lamports + ctx.vault.lamports
        }),
{
}

/// An active vault that is locked by amount alone stays shut while it holds no
/// more than its unlock amount, and opens as soon as it holds more: the
/// amount itself is not enough, one unit above it is.
pub proof fn lemma_amount_lock_opens_above_amount(ctx: Close, now: i64)
    requires
        ctx.vault.record matches Some(vault) && vault.active && vault.unlock_time == 0
            && vault.unlock_amount != 0 && ctx.authority.controls(vault),
        ctx.withdraw_address.lamports + ctx.vault.lamports <= u64::MAX,
    ensures
        ({
            let unlock_amount = ctx.vault.record->Some_0.unlock_amount;
            let held = ctx.vault.lamports;
            let (after, answer) = ctx.outcome(now);
            &&& held <= unlock_amount ==> after == ctx && answer == Err::<(), SteelError>(
                SteelError::FailedToCloseVault,
            )
            &&& held > unlock_amount ==> answer is Ok && after.vault.record is None
                && after.vault.lamports == 0 && after.withdraw_address.lamports
                == ctx.withdraw_address.lamports + held
            &&& held == unlock_amount ==> answer is Err
            &&& held == unlock_amount + 1 ==> answer is Ok
        }),
{
}

/// A vault without any condition cannot be activated: the request is refused
/// and the vault stays as it was.
pub proof fn lemma_activation_needs_condition(ctx: Activate)
    requires
        ctx.vault.record matches Some(vault) && !vault.has_condition() && ctx.authority.controls(
            vault,
        ),
    ensures
        ctx.outcome() == (ctx, Err::<(), SteelError>(SteelError::MissingCondition)),
{
}

/// An update that names no condition clears both conditions of a vault that is
/// not active and changes nothing else. Doing it a second time changes
/// nothing at all.
pub proof fn lemma_empty_update_clears(ctx: Update, now: i64, later: i64)
    requires
        ctx.vault.record matches Some(vault) && !vault.active && ctx.authority.controls(vault),
    ensures
        ({
            let vault = ctx.vault.record->Some_0;
            let (cleared, answer) = ctx.outcome(now, None, None);
            &&& answer is Ok
            &&& cleared.vault.record == Some(Vault { unlock_time: 0, unlock_amount: 0, ..vault })
            &&& cleared.vault.lamports == ctx.vault.lamports
            &&& cleared.authority == ctx.authority
            &&& cleared.outcome(later, None, None) == (cleared, Ok::<(), SteelError>(()))
        }),
{
}

/// Creating a vault yields a well-formed record that is not active and
/// belongs to the signer.
pub proof fn lemma_initialize_establishes_invariant(
    ctx: Initialize,
    bump: Option<u8>,
    now: i64,
    unlock_time: Option<i64>,
    unlock_amount: Option<u64>,
)
    requires
        ctx.outcome(bump, now, unlock_time, unlock_amount).1 is Ok,
    ensures
        ({
            let created = ctx.outcome(bump, now, unlock_time, unlock_amount).0;
            &&& created.vault.record matches Some(vault)
            &&& vault.wf()
            &&& !vault.active
            &&& vault.authority == ctx.authority.key
            &&& ctx.authority.controls(vault)
        }),
{
}

/// An update keeps the record well formed and leaves its authority, its bump
/// and its state alone.
pub proof fn lemma_update_keeps_invariant(
    ctx: Update,
    now: i64,
    unlock_time: Option<i64>,
    unlock_amount: Option<u64>,
)
    requires
        ctx.vault.record matches Some(vault) && vault.wf(),
    ensures
        ({
            let before = ctx.vault.record->Some_0;
            let after = ctx.outcome(now, unlock_time, unlock_amount).0;
            &&& after.vault.record matches Some(vault)
            &&& vault.wf()
            &&& vault.authority == before.authority
            &&& vault.bump == before.bump
            &&& vault.active == before.active
        }),
{
}

/// Activation keeps the record well formed and leaves its authority, its bump
/// and its conditions alone. Where it is granted, the vault is active.
pub proof fn lemma_activate_keeps_invariant(ctx: Activate)
    requires
        ctx.vault.record matches Some(vault) && vault.wf(),
    ensures
        ({
            let before = ctx.vault.record->Some_0;
            let (after, answer) = ctx.outcome();
            &&& after.vault.record matches Some(vault)
            &&& vault.wf()
            &&& vault.authority == before.authority
            &&& vault.bump == before.bump
            &&& vault.unlock_time == before.unlock_time
            &&& vault.unlock_amount == before.unlock_amount
            &&& answer is Ok ==> vault.active
        }),
{
}

/// A vault moves through its life in one direction. It is created
/// configurable; an update is granted only while it is configurable, and
/// leaves it so; activation makes it binding, and keeps it so; closing ends
/// it.
pub proof fn lemma_lifecycle(
    create: Initialize,
    edit: Update,
    arm: Activate,
    end: Close,
    bump: Option<u8>,
    now: i64,
    unlock_time: Option<i64>,
    unlock_amount: Option<u64>,
)
    ensures
        ({
            let (after, answer) = create.outcome(bump, now, unlock_time, unlock_amount);
            answer is Ok ==> after.vault.state() == VaultState::Configurable
        }),
        ({
            let (after, answer) = edit.outcome(now, unlock_time, unlock_amount);
            answer is Ok ==> edit.vault.state() == VaultState::Configurable && after.vault.state()
                == VaultState::Configurable
        }),
        ({
            let (after, answer) = arm.outcome();
            answer is Ok ==> arm.vault.state() != VaultState::Absent && after.vault.state()
                == VaultState::Binding
        }),
        ({
            let (after, answer) = end.outcome(now);
            answer is Ok ==> end.vault.state() != VaultState::Absent && after.vault.state()
                == VaultState::Absent
        }),
{
}

/// Closing is all or nothing. It is granted exactly where the vault exists,
/// the caller is its authority and its release is permitted, and it then
/// leaves no record and no value in the vault's account.
pub proof fn lemma_close_is_all_or_nothing(ctx: Close, now: i64)
    ensures
        ({
            let (after, answer) = ctx.outcome(now);
            &&& answer is Ok <==> ctx.releases(now)
            &&& answer is Ok ==> after.vault == (VaultAccount { lamports: 0, record: None })
        }),
{
}

} // verus!
