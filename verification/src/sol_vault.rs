//! A per-user SOL vault: a user deposits lamports into the empty account
//! derived from `"vault"` and their key, and withdraws all of them at once.
use vstd::prelude::*;

use crate::keys::Key;

verus! {

/// The accounts of both instructions that the logic reads.
#[derive(Clone, Copy)]
pub struct VaultAction {
    pub user: Key,
    pub vault: Key,
    pub vault_lamports: u64,
    pub vault_bump: u8,
}

/// The program's errors.
#[derive(Clone, Copy, PartialEq, Eq, Structural, Debug)]
pub enum VaultErrors {
    VaultAlreadyExists,
    InvalidAmount,
}

/// Who signs a lamport transfer.
#[derive(Clone, Copy)]
pub enum LamportSigner {
    /// The user signs the transaction.
    User,
    /// The vault signs as the address derived from `"vault"`, the user's key
    /// and the bump.
    Vault { user: Key, bump: u8 },
}

/// A lamport transfer for the system program to carry out.
#[derive(Clone, Copy)]
pub struct SolTransfer {
    pub from: Key,
    pub to: Key,
    pub lamports: u64,
    pub signer: LamportSigner,
}

/// What `deposit` decides.
pub open spec fn deposit_spec(ctx: VaultAction, amount: u64, rent_minimum: u64) -> Result<SolTransfer, VaultErrors> {
    if ctx.vault_lamports != 0 {
        Err(VaultErrors::VaultAlreadyExists)
    } else if amount <= rent_minimum {
        Err(VaultErrors::InvalidAmount)
    } else {
        Ok(SolTransfer { from: ctx.user, to: ctx.vault, lamports: amount, signer: LamportSigner::User })
    }
}

/// What `withdraw` decides.
pub open spec fn withdraw_spec(ctx: VaultAction) -> Result<SolTransfer, VaultErrors> {
    if ctx.vault_lamports == 0 {
        Err(VaultErrors::InvalidAmount)
    } else {
        Ok(
            SolTransfer {
                from: ctx.vault,
                to: ctx.user,
                lamports: ctx.vault_lamports,
                signer: LamportSigner::Vault { user: ctx.user, bump: ctx.vault_bump },
            },
        )
    }
}

/// Deposits `amount` lamports: the vault must be empty and the amount must
/// exceed `rent_minimum`, the rent-exempt minimum of an account without data.
/// Returns the transfer of `amount` from the user to the vault.
pub fn deposit(ctx: &VaultAction, amount: u64, rent_minimum: u64) -> (res: Result<SolTransfer, VaultErrors>)
    ensures
        res == deposit_spec(*ctx, amount, rent_minimum),
{
    if ctx.vault_lamports != 0 {
        return Err(VaultErrors::VaultAlreadyExists);
    }
    if !(amount > rent_minimum) {
        return Err(VaultErrors::InvalidAmount);
    }
    Ok(SolTransfer { from: ctx.user, to: ctx.vault, lamports: amount, signer: LamportSigner::User })
}

/// Withdraws everything: the vault must hold lamports; returns the transfer
/// of all of them from the vault, which signs, to the user.
pub fn withdraw(ctx: &VaultAction) -> (res: Result<SolTransfer, VaultErrors>)
    ensures
        res == withdraw_spec(*ctx),
{
    if ctx.vault_lamports == 0 {
        return Err(VaultErrors::InvalidAmount);
    }
    Ok(
        SolTransfer {
            from: ctx.vault,
            to: ctx.user,
            lamports: ctx.vault_lamports,
            signer: LamportSigner::Vault { user: ctx.user, bump: ctx.vault_bump },
        },
    )
}

/// What a deposit puts in, a withdrawal takes out: once the deposit's
/// transfer has landed in the empty vault, `withdraw` moves exactly the
/// deposited lamports back to the same user, and a second deposit is refused.
pub proof fn withdraw_returns_the_deposit(ctx: VaultAction, amount: u64, rent_minimum: u64, again: u64)
    requires
        deposit_spec(ctx, amount, rent_minimum) is Ok,
    ensures
        ({
            let filled = VaultAction { vault_lamports: amount, ..ctx };
            &&& withdraw_spec(filled) matches Ok(t)
            &&& t.from == ctx.vault
            &&& t.to == ctx.user
            &&& t.lamports == deposit_spec(ctx, amount, rent_minimum)->Ok_0.lamports
            &&& deposit_spec(filled, again, rent_minimum) == Err::<SolTransfer, VaultErrors>(
                VaultErrors::VaultAlreadyExists,
            )
        }),
{
}

/// A withdrawal always empties the vault, and an empty vault has nothing to
/// withdraw.
pub proof fn withdraw_empties_the_vault(ctx: VaultAction)
    ensures
        withdraw_spec(ctx) matches Ok(t) ==> t.lamports == ctx.vault_lamports,
        ctx.vault_lamports == 0 <==> withdraw_spec(ctx) == Err::<SolTransfer, VaultErrors>(VaultErrors::InvalidAmount),
{
}

/// A deposit is accepted exactly into an empty vault and for more than the
/// rent-exempt minimum, and then moves `amount` from the user to the vault;
/// a withdrawal is accepted exactly from a vault holding lamports, and moves
/// all of them from the vault to the user.
pub proof fn vault_accepts_exactly(ctx: VaultAction, amount: u64, rent_minimum: u64)
    ensures
        deposit_spec(ctx, amount, rent_minimum) is Ok <==> (ctx.vault_lamports == 0 && amount > rent_minimum),
        deposit_spec(ctx, amount, rent_minimum) matches Ok(t) ==> {
            &&& t.from == ctx.user
            &&& t.to == ctx.vault
            &&& t.lamports == amount
        },
        withdraw_spec(ctx) is Ok <==> ctx.vault_lamports > 0,
        withdraw_spec(ctx) matches Ok(t) ==> {
            &&& t.from == ctx.vault
            &&& t.to == ctx.user
            &&& t.lamports == ctx.vault_lamports
        },
{
}

} // verus!
