//! A staking vault that pays rewards per staked token.
//!
//! The vault keeps a reward index, `reward_per_token_stored`, scaled by
//! [`PRECISION`]. Whenever the vault is touched while tokens are staked, the
//! index grows by `elapsed * reward_rate * PRECISION / total_staked`. Each
//! user profile remembers the index it was last settled at; settling credits
//! `staked_amount * (index - reward_per_token_paid) / PRECISION` reward tokens.
//!
//! The on-chain program aborts (panics) when one of its unchecked or
//! `unwrap`ped operations overflows; the functions here leave those inputs out
//! through their `requires`, and `*_within_limits` lets a caller test for them.
use vstd::prelude::*;

use crate::keys::Key;

verus! {

/// Fixed-point scale of the reward index.
pub const PRECISION: u128 = 1_000_000_000_000;

/// The vault account.
#[derive(Clone, Copy)]
pub struct Vault {
    pub admin: Key,
    pub staked_mint: Key,
    pub reward_mint: Key,
    pub total_staked: u64,
    pub last_updated: i64,
    pub reward_rate: u64,
    pub reward_per_token_stored: u128,
    pub bump: u8,
}

/// A user's stake in a vault.
#[derive(Clone, Copy)]
pub struct UserStakeProfile {
    pub authority: Key,
    pub staked_amount: u64,
    pub last_updated: i64,
    pub reward_per_token_paid: u128,
    pub rewards_earned: u64,
}

/// Errors that the program itself defines.
#[derive(Clone, Copy, PartialEq, Eq, Debug)]
pub enum StakingErrors {
    NotStaked,
    InvalidAmount,
    VaultEmpty,
}

/// Why an instruction was refused: one of the program's errors, or a reward
/// that does not fit in a `u64` (the framework's numeric conversion error).
#[derive(Clone, Copy, PartialEq, Eq, Debug)]
pub enum StakingFailure {
    Staking(StakingErrors),
    InvalidNumericConversion,
}

/// The token accounts between which the program moves tokens.
#[derive(Clone, Copy, PartialEq, Eq, Debug)]
pub enum StakeTokenAccount {
    /// The user's account of the staked mint.
    UserStake,
    /// The vault's account of the staked mint.
    VaultStake,
    /// The vault's account of the reward mint.
    VaultReward,
    /// The user's account of the reward mint.
    UserReward,
}

/// Who signs a token transfer.
#[derive(Clone, Copy)]
pub enum TransferSigner {
    /// The user signs the transaction.
    User,
    /// The vault signs as the address derived from `"vault"`, the admin key
    /// and the bump.
    Vault { admin: Key, bump: u8 },
}

/// A checked token transfer for the token program to carry out.
#[derive(Clone, Copy)]
pub struct TokenTransfer {
    pub from: StakeTokenAccount,
    pub to: StakeTokenAccount,
    pub amount: u64,
    pub decimals: u8,
    pub signer: TransferSigner,
}

/// The accounts of `vault_init`: the keys the new vault records.
pub struct Vaultinit {
    pub admin: Key,
    pub staked_mint: Key,
    pub reward_mint: Key,
    pub vault_bump: u8,
}

/// The accounts of `deposit` that the logic reads and writes.
pub struct Deposit {
    pub user: Key,
    pub staked_mint_decimals: u8,
    pub vault: Vault,
    pub user_stake_profile: UserStakeProfile,
}

/// The accounts of `claim` that the logic reads and writes.
pub struct Claim {
    pub admin: Key,
    pub reward_mint_decimals: u8,
    pub vault: Vault,
    pub user_stake_profile: UserStakeProfile,
}

/// The accounts of `withdraw` that the logic reads and writes.
pub struct Withdraw {
    pub admin: Key,
    pub staked_mint_decimals: u8,
    pub vault: Vault,
    pub user_profile: UserStakeProfile,
}

// ---------------------------------------------------------------------------
// The reward arithmetic
// ---------------------------------------------------------------------------

/// `(now - last) as u128`: a negative difference wraps modulo 2^128.
pub open spec fn elapsed_as_u128(now: i64, last: i64) -> int {
    let d = now - last;
    if d >= 0 {
        d
    } else {
        d + 0x1_0000_0000_0000_0000_0000_0000_0000_0000
    }
}

/// The growth of the reward index since the vault was last updated.
pub open spec fn index_increase(v: Vault, now: i64) -> int {
    elapsed_as_u128(now, v.last_updated) * v.reward_rate * PRECISION / (v.total_staked as int)
}

/// Updating the index at `now` overflows none of the program's operations.
pub open spec fn accrual_ok(v: Vault, now: i64) -> bool {
    v.total_staked > 0 ==> {
        &&& i64::MIN <= now - v.last_updated <= i64::MAX
        &&& elapsed_as_u128(now, v.last_updated) * v.reward_rate * PRECISION <= u128::MAX
        &&& v.reward_per_token_stored + index_increase(v, now) <= u128::MAX
    }
}

/// The reward index after updating at `now`.
pub open spec fn accrued_index(v: Vault, now: i64) -> int {
    if v.total_staked > 0 {
        v.reward_per_token_stored + index_increase(v, now)
    } else {
        v.reward_per_token_stored as int
    }
}

/// Settling a stake against `index` overflows nothing.
pub open spec fn settle_ok(staked: u64, index: int, paid: u128) -> bool {
    &&& index >= paid
    &&& staked * (index - paid) <= u128::MAX
}

/// The rewards a stake earned between index `paid` and `index`.
pub open spec fn pending_reward(staked: u64, index: int, paid: u128) -> int {
    staked * (index - paid) / (PRECISION as int)
}

/// The vault after its index was brought up to `now`.
pub open spec fn accrued_vault(v: Vault, now: i64) -> Vault {
    Vault { reward_per_token_stored: accrued_index(v, now) as u128, last_updated: now, ..v }
}

// ---------------------------------------------------------------------------
// What each instruction does
// ---------------------------------------------------------------------------

/// The vault that `vault_init` writes.
pub open spec fn initial_vault(ctx: Vaultinit, reward_rate: u64) -> Vault {
    Vault {
        admin: ctx.admin,
        staked_mint: ctx.staked_mint,
        reward_mint: ctx.reward_mint,
        reward_rate,
        reward_per_token_stored: 0,
        bump: ctx.vault_bump,
        last_updated: 0,
        total_staked: 0,
    }
}

/// The inputs on which `deposit` runs to its end or to an error.
pub open spec fn deposit_within_limits(v: Vault, p: UserStakeProfile, amount: u64, now: i64) -> bool {
    let idx = accrued_index(v, now);
    let pending = pending_reward(p.staked_amount, idx, p.reward_per_token_paid);
    amount > 0 ==> {
        &&& accrual_ok(v, now)
        &&& p.staked_amount > 0 ==> settle_ok(p.staked_amount, idx, p.reward_per_token_paid)
        &&& (p.staked_amount > 0 && pending <= u64::MAX) ==> p.rewards_earned + pending <= u64::MAX
        &&& (p.staked_amount == 0 || pending <= u64::MAX) ==> {
            &&& v.total_staked + amount <= u64::MAX
            &&& p.staked_amount + amount <= u64::MAX
        }
    }
}

/// The vault and profile after `deposit`, or its error.
pub open spec fn deposit_spec(v: Vault, p: UserStakeProfile, user: Key, amount: u64, now: i64)
    -> Result<(Vault, UserStakeProfile), StakingFailure> {
    let idx = accrued_index(v, now);
    let pending = pending_reward(p.staked_amount, idx, p.reward_per_token_paid);
    if amount == 0 {
        Err(StakingFailure::Staking(StakingErrors::InvalidAmount))
    } else if p.staked_amount > 0 && pending > u64::MAX {
        Err(StakingFailure::InvalidNumericConversion)
    } else {
        let earned = if p.staked_amount > 0 { p.rewards_earned + pending } else { p.rewards_earned as int };
        Ok((
            Vault { total_staked: (v.total_staked + amount) as u64, ..accrued_vault(v, now) },
            UserStakeProfile {
                authority: user,
                staked_amount: (p.staked_amount + amount) as u64,
                last_updated: now,
                reward_per_token_paid: idx as u128,
                rewards_earned: earned as u64,
            },
        ))
    }
}

/// The inputs on which `claim` runs to its end or to an error.
pub open spec fn claim_within_limits(v: Vault, p: UserStakeProfile, now: i64) -> bool {
    let idx = accrued_index(v, now);
    let pending = pending_reward(p.staked_amount, idx, p.reward_per_token_paid);
    &&& accrual_ok(v, now)
    &&& settle_ok(p.staked_amount, idx, p.reward_per_token_paid)
    &&& pending <= u64::MAX ==> p.rewards_earned + pending <= u64::MAX
}

/// The vault, the profile and the reward paid out by `claim`, or its error.
pub open spec fn claim_spec(v: Vault, p: UserStakeProfile, now: i64)
    -> Result<(Vault, UserStakeProfile, u64), StakingFailure> {
    let idx = accrued_index(v, now);
    let pending = pending_reward(p.staked_amount, idx, p.reward_per_token_paid);
    if pending > u64::MAX {
        Err(StakingFailure::InvalidNumericConversion)
    } else {
        Ok((
            accrued_vault(v, now),
            UserStakeProfile {
                last_updated: now,
                reward_per_token_paid: idx as u128,
                rewards_earned: 0,
                ..p
            },
            (p.rewards_earned + pending) as u64,
        ))
    }
}

/// The checks of `withdraw` that come before any arithmetic.
pub open spec fn withdraw_check(v: Vault, p: UserStakeProfile, amount: u64) -> Option<StakingErrors> {
    if amount > p.staked_amount {
        Some(StakingErrors::InvalidAmount)
    } else if amount == 0 {
        Some(StakingErrors::InvalidAmount)
    } else if v.total_staked == 0 {
        Some(StakingErrors::VaultEmpty)
    } else {
        None
    }
}

/// The inputs on which `withdraw` runs to its end or to an error.
pub open spec fn withdraw_within_limits(v: Vault, p: UserStakeProfile, amount: u64, now: i64) -> bool {
    let idx = accrued_index(v, now);
    let pending = pending_reward(p.staked_amount, idx, p.reward_per_token_paid);
    withdraw_check(v, p, amount) is None ==> {
        &&& accrual_ok(v, now)
        &&& amount <= v.total_staked
        &&& settle_ok(p.staked_amount, idx, p.reward_per_token_paid)
        &&& pending <= u64::MAX ==> p.rewards_earned + pending <= u64::MAX
    }
}

/// The vault and profile after `withdraw`, or its error.
pub open spec fn withdraw_spec(v: Vault, p: UserStakeProfile, amount: u64, now: i64)
    -> Result<(Vault, UserStakeProfile), StakingFailure> {
    let idx = accrued_index(v, now);
    let pending = pending_reward(p.staked_amount, idx, p.reward_per_token_paid);
    match withdraw_check(v, p, amount) {
        Some(e) => Err(StakingFailure::Staking(e)),
        None => if pending > u64::MAX {
            Err(StakingFailure::InvalidNumericConversion)
        } else {
            Ok((
                Vault { total_staked: (v.total_staked - amount) as u64, ..accrued_vault(v, now) },
                UserStakeProfile {
                    staked_amount: (p.staked_amount - amount) as u64,
                    last_updated: now,
                    reward_per_token_paid: idx as u128,
                    rewards_earned: (p.rewards_earned + pending) as u64,
                    ..p
                },
            ))
        },
    }
}

// ---------------------------------------------------------------------------
// Executable arithmetic
// ---------------------------------------------------------------------------

/// Brings the reward index up to `now`.
fn accrue_index(v: &Vault, now: i64) -> (idx: u128)
    requires
        accrual_ok(*v, now),
    ensures
        idx == accrued_index(*v, now),
{
    if v.total_staked > 0 {
        let d: i64 = now - v.last_updated;
        let reward: u128 = if d >= 0 {
            let elapsed: u128 = d as u128;
            let rate: u128 = v.reward_rate as u128;
            assert(elapsed * rate <= elapsed * rate * PRECISION) by (nonlinear_arith)
                requires
                    elapsed >= 0,
                    rate >= 0,
            ;
            let scaled: u128 = elapsed * rate * PRECISION;
            scaled / (v.total_staked as u128)
        } else {
            // A negative difference wraps to a value at least 2^127; multiplied
            // by a positive rate and the precision it would overflow, so the
            // rate is zero here and so is the product.
            assert(v.reward_rate == 0) by (nonlinear_arith)
                requires
                    elapsed_as_u128(now, v.last_updated) * v.reward_rate * PRECISION <= u128::MAX,
                    elapsed_as_u128(now, v.last_updated) >= 0x8000_0000_0000_0000_0000_0000_0000_0000,
                    v.reward_rate >= 0,
            ;
            0
        };
        v.reward_per_token_stored + reward
    } else {
        v.reward_per_token_stored
    }
}

/// Rewards earned by `staked` tokens from index `paid` to index `idx`.
fn pending_rewards(staked: u64, idx: u128, paid: u128) -> (r: u128)
    requires
        settle_ok(staked, idx as int, paid),
    ensures
        r == pending_reward(staked, idx as int, paid),
{
    let delta: u128 = idx - paid;
    let product: u128 = (staked as u128) * delta;
    product / PRECISION
}

/// Tests whether the index update at `now` stays within `u128` and `i64`.
fn accrual_fits(v: &Vault, now: i64) -> (r: bool)
    ensures
        r == accrual_ok(*v, now),
{
    if v.total_staked == 0 {
        return true;
    }
    let d = match now.checked_sub(v.last_updated) {
        Some(d) => d,
        None => return false,
    };
    let rate: u128 = v.reward_rate as u128;
    if d < 0 {
        if rate != 0 {
            proof {
                let e = elapsed_as_u128(now, v.last_updated);
                assert(e * v.reward_rate * PRECISION > u128::MAX) by (nonlinear_arith)
                    requires
                        e >= 0x8000_0000_0000_0000_0000_0000_0000_0000,
                        v.reward_rate >= 1,
                ;
            }
            return false;
        }
        assert(elapsed_as_u128(now, v.last_updated) * v.reward_rate * PRECISION == 0) by (nonlinear_arith)
            requires
                v.reward_rate == 0,
        ;
        assert(index_increase(*v, now) == 0);
        return true;
    }
    let elapsed: u128 = d as u128;
    let er = match elapsed.checked_mul(rate) {
        Some(x) => x,
        None => {
            proof {
                assert(elapsed * rate * PRECISION > u128::MAX) by (nonlinear_arith)
                    requires
                        elapsed * rate > u128::MAX,
                ;
            }
            return false;
        }
    };
    let scaled = match er.checked_mul(PRECISION) {
        Some(x) => x,
        None => return false,
    };
    let inc: u128 = scaled / (v.total_staked as u128);
    v.reward_per_token_stored.checked_add(inc).is_some()
}

/// Tests whether settling `staked` tokens from `paid` to `idx` stays within `u128`.
fn settle_fits(staked: u64, idx: u128, paid: u128) -> (r: bool)
    ensures
        r == settle_ok(staked, idx as int, paid),
{
    if idx < paid {
        return false;
    }
    (staked as u128).checked_mul(idx - paid).is_some()
}

// ---------------------------------------------------------------------------
// The instructions
// ---------------------------------------------------------------------------

/// Creates the vault: records the admin, the two mints and the reward rate,
/// with nothing staked and the index at zero.
pub fn vault_init(ctx: &Vaultinit, reward_rate: u64) -> (vault: Vault)
    ensures
        vault == initial_vault(*ctx, reward_rate),
{
    Vault {
        admin: ctx.admin,
        staked_mint: ctx.staked_mint,
        reward_mint: ctx.reward_mint,
        reward_rate,
        reward_per_token_stored: 0,
        bump: ctx.vault_bump,
        last_updated: 0,
        total_staked: 0,
    }
}

/// Stakes `amount` tokens at time `now`: updates the index, settles the
/// user's rewards, adds the stake and returns the transfer of `amount` staked
/// tokens from the user to the vault. On an error nothing changes.
pub fn deposit(ctx: &mut Deposit, amount: u64, now: i64) -> (res: Result<TokenTransfer, StakingFailure>)
    requires
        deposit_within_limits(old(ctx).vault, old(ctx).user_stake_profile, amount, now),
    ensures
        final(ctx).user == old(ctx).user,
        final(ctx).staked_mint_decimals == old(ctx).staked_mint_decimals,
        match deposit_spec(old(ctx).vault, old(ctx).user_stake_profile, old(ctx).user, amount, now) {
            Ok((v, p)) => {
                &&& res matches Ok(t)
                &&& final(ctx).vault == v
                &&& final(ctx).user_stake_profile == p
                &&& t.from == StakeTokenAccount::UserStake
                &&& t.to == StakeTokenAccount::VaultStake
                &&& t.amount == amount
                &&& t.decimals == old(ctx).staked_mint_decimals
                &&& t.signer matches TransferSigner::User
            },
            Err(e) => {
                &&& res == Err::<TokenTransfer, StakingFailure>(e)
                &&& final(ctx).vault == old(ctx).vault
                &&& final(ctx).user_stake_profile == old(ctx).user_stake_profile
            },
        },
{
    if amount == 0 {
        return Err(StakingFailure::Staking(StakingErrors::InvalidAmount));
    }
    let v = ctx.vault;
    let p = ctx.user_stake_profile;
    let idx = accrue_index(&v, now);
    let mut earned = p.rewards_earned;
    if p.staked_amount > 0 {
        let pending = pending_rewards(p.staked_amount, idx, p.reward_per_token_paid);
        if pending > 0xffff_ffff_ffff_ffffu128 {
            return Err(StakingFailure::InvalidNumericConversion);
        }
        earned = earned + (pending as u64);
    }
    ctx.vault = Vault {
        reward_per_token_stored: idx,
        last_updated: now,
        total_staked: v.total_staked + amount,
        ..v
    };
    ctx.user_stake_profile = UserStakeProfile {
        authority: ctx.user,
        staked_amount: p.staked_amount + amount,
        last_updated: now,
        reward_per_token_paid: idx,
        rewards_earned: earned,
    };
    Ok(TokenTransfer {
        from: StakeTokenAccount::UserStake,
        to: StakeTokenAccount::VaultStake,
        amount,
        decimals: ctx.staked_mint_decimals,
        signer: TransferSigner::User,
    })
}

/// Pays out the user's rewards at time `now`: updates the index, settles the
/// profile and returns the transfer of everything earned from the vault's
/// reward account to the user's, signed by the vault; the profile's earned
/// rewards then drop to zero. On an error nothing changes.
pub fn claim(ctx: &mut Claim, now: i64) -> (res: Result<TokenTransfer, StakingFailure>)
    requires
        claim_within_limits(old(ctx).vault, old(ctx).user_stake_profile, now),
    ensures
        final(ctx).admin == old(ctx).admin,
        final(ctx).reward_mint_decimals == old(ctx).reward_mint_decimals,
        match claim_spec(old(ctx).vault, old(ctx).user_stake_profile, now) {
            Ok((v, p, payout)) => {
                &&& res matches Ok(t)
                &&& final(ctx).vault == v
                &&& final(ctx).user_stake_profile == p
                &&& t.from == StakeTokenAccount::VaultReward
                &&& t.to == StakeTokenAccount::UserReward
                &&& t.amount == payout
                &&& t.decimals == old(ctx).reward_mint_decimals
                &&& t.signer matches TransferSigner::Vault { admin, bump }
                &&& admin == old(ctx).admin
                &&& bump == old(ctx).vault.bump
            },
            Err(e) => {
                &&& res == Err::<TokenTransfer, StakingFailure>(e)
                &&& final(ctx).vault == old(ctx).vault
                &&& final(ctx).user_stake_profile == old(ctx).user_stake_profile
            },
        },
{
    let v = ctx.vault;
    let p = ctx.user_stake_profile;
    let idx = accrue_index(&v, now);
    let pending = pending_rewards(p.staked_amount, idx, p.reward_per_token_paid);
    if pending > 0xffff_ffff_ffff_ffffu128 {
        return Err(StakingFailure::InvalidNumericConversion);
    }
    let payout: u64 = p.rewards_earned + (pending as u64);
    ctx.vault = Vault { reward_per_token_stored: idx, last_updated: now, ..v };
    ctx.user_stake_profile = UserStakeProfile {
        last_updated: now,
        reward_per_token_paid: idx,
        rewards_earned: 0,
        ..p
    };
    Ok(TokenTransfer {
        from: StakeTokenAccount::VaultReward,
        to: StakeTokenAccount::UserReward,
        amount: payout,
        decimals: ctx.reward_mint_decimals,
        signer: TransferSigner::Vault { admin: ctx.admin, bump: v.bump },
    })
}

/// Unstakes `amount` tokens at time `now`: checks the amount against the
/// stake and the vault, updates the index, settles the profile, lowers both
/// totals and returns the transfer of `amount` staked tokens from the vault
/// to the user, signed by the vault. On an error nothing changes.
pub fn withdraw(ctx: &mut Withdraw, amount: u64, now: i64) -> (res: Result<TokenTransfer, StakingFailure>)
    requires
        withdraw_within_limits(old(ctx).vault, old(ctx).user_profile, amount, now),
    ensures
        final(ctx).admin == old(ctx).admin,
        final(ctx).staked_mint_decimals == old(ctx).staked_mint_decimals,
        match withdraw_spec(old(ctx).vault, old(ctx).user_profile, amount, now) {
            Ok((v, p)) => {
                &&& res matches Ok(t)
                &&& final(ctx).vault == v
                &&& final(ctx).user_profile == p
                &&& t.from == StakeTokenAccount::VaultStake
                &&& t.to == StakeTokenAccount::UserStake
                &&& t.amount == amount
                &&& t.decimals == old(ctx).staked_mint_decimals
                &&& t.signer matches TransferSigner::Vault { admin, bump }
                &&& admin == old(ctx).admin
                &&& bump == old(ctx).vault.bump
            },
            Err(e) => {
                &&& res == Err::<TokenTransfer, StakingFailure>(e)
                &&& final(ctx).vault == old(ctx).vault
                &&& final(ctx).user_profile == old(ctx).user_profile
            },
        },
{
    let v = ctx.vault;
    let p = ctx.user_profile;
    if amount > p.staked_amount {
        return Err(StakingFailure::Staking(StakingErrors::InvalidAmount));
    }
    if amount == 0 {
        return Err(StakingFailure::Staking(StakingErrors::InvalidAmount));
    }
    if v.total_staked == 0 {
        return Err(StakingFailure::Staking(StakingErrors::VaultEmpty));
    }
    let idx = accrue_index(&v, now);
    let pending = pending_rewards(p.staked_amount, idx, p.reward_per_token_paid);
    if pending > 0xffff_ffff_ffff_ffffu128 {
        return Err(StakingFailure::InvalidNumericConversion);
    }
    ctx.vault = Vault {
        reward_per_token_stored: idx,
        last_updated: now,
        total_staked: v.total_staked - amount,
        ..v
    };
    ctx.user_profile = UserStakeProfile {
        staked_amount: p.staked_amount - amount,
        last_updated: now,
        reward_per_token_paid: idx,
        rewards_earned: p.rewards_earned + (pending as u64),
        ..p
    };
    Ok(TokenTransfer {
        from: StakeTokenAccount::VaultStake,
        to: StakeTokenAccount::UserStake,
        amount,
        decimals: ctx.staked_mint_decimals,
        signer: TransferSigner::Vault { admin: ctx.admin, bump: v.bump },
    })
}


// ---------------------------------------------------------------------------
// Tests for the inputs on which the program aborts
// ---------------------------------------------------------------------------

/// Whether `deposit` of `amount` at `now` stays within the program's
/// arithmetic (on other inputs the program aborts).
pub fn deposit_is_within_limits(ctx: &Deposit, amount: u64, now: i64) -> (r: bool)
    ensures
        r == deposit_within_limits(ctx.vault, ctx.user_stake_profile, amount, now),
{
    if amount == 0 {
        return true;
    }
    let v = &ctx.vault;
    let p = &ctx.user_stake_profile;
    if !accrual_fits(v, now) {
        return false;
    }
    let idx = accrue_index(v, now);
    let mut converted = true;
    if p.staked_amount > 0 {
        if !settle_fits(p.staked_amount, idx, p.reward_per_token_paid) {
            return false;
        }
        let pending = pending_rewards(p.staked_amount, idx, p.reward_per_token_paid);
        if pending <= 0xffff_ffff_ffff_ffffu128 {
            if p.rewards_earned.checked_add(pending as u64).is_none() {
                return false;
            }
        } else {
            converted = false;
        }
    }
    if converted {
        v.total_staked.checked_add(amount).is_some() && p.staked_amount.checked_add(amount).is_some()
    } else {
        true
    }
}

/// Whether `claim` at `now` stays within the program's arithmetic.
pub fn claim_is_within_limits(ctx: &Claim, now: i64) -> (r: bool)
    ensures
        r == claim_within_limits(ctx.vault, ctx.user_stake_profile, now),
{
    let v = &ctx.vault;
    let p = &ctx.user_stake_profile;
    if !accrual_fits(v, now) {
        return false;
    }
    let idx = accrue_index(v, now);
    if !settle_fits(p.staked_amount, idx, p.reward_per_token_paid) {
        return false;
    }
    let pending = pending_rewards(p.staked_amount, idx, p.reward_per_token_paid);
    pending > 0xffff_ffff_ffff_ffffu128 || p.rewards_earned.checked_add(pending as u64).is_some()
}

/// Whether `withdraw` of `amount` at `now` stays within the program's arithmetic.
pub fn withdraw_is_within_limits(ctx: &Withdraw, amount: u64, now: i64) -> (r: bool)
    ensures
        r == withdraw_within_limits(ctx.vault, ctx.user_profile, amount, now),
{
    let v = &ctx.vault;
    let p = &ctx.user_profile;
    if amount > p.staked_amount || amount == 0 || v.total_staked == 0 {
        return true;
    }
    if !accrual_fits(v, now) || amount > v.total_staked {
        return false;
    }
    let idx = accrue_index(v, now);
    if !settle_fits(p.staked_amount, idx, p.reward_per_token_paid) {
        return false;
    }
    let pending = pending_rewards(p.staked_amount, idx, p.reward_per_token_paid);
    pending > 0xffff_ffff_ffff_ffffu128 || p.rewards_earned.checked_add(pending as u64).is_some()
}

// ---------------------------------------------------------------------------
// Laws
// ---------------------------------------------------------------------------

/// Withdrawing a deposit in the same second it was made succeeds, returns the
/// vault's total and the user's stake to what they were before the deposit,
/// and leaves the reward index and the user's earned rewards as the deposit
/// left them.
pub proof fn deposit_then_withdraw_restores_stake(
    v: Vault,
    p: UserStakeProfile,
    user: Key,
    amount: u64,
    now: i64,
)
    requires
        deposit_within_limits(v, p, amount, now),
        deposit_spec(v, p, user, amount, now) is Ok,
    ensures
        ({
            let (v1, p1) = deposit_spec(v, p, user, amount, now)->Ok_0;
            &&& withdraw_within_limits(v1, p1, amount, now)
            &&& withdraw_spec(v1, p1, amount, now) matches Ok((v2, p2))
            &&& v2.total_staked == v.total_staked
            &&& p2.staked_amount == p.staked_amount
            &&& v2.reward_per_token_stored == v1.reward_per_token_stored
            &&& p2.rewards_earned == p1.rewards_earned
        }),
{
    let (v1, p1) = deposit_spec(v, p, user, amount, now)->Ok_0;
    assert(elapsed_as_u128(now, v1.last_updated) == 0);
    assert(elapsed_as_u128(now, v1.last_updated) * v1.reward_rate * PRECISION == 0) by (nonlinear_arith)
        requires
            elapsed_as_u128(now, v1.last_updated) == 0,
    ;
    assert(index_increase(v1, now) == 0);
    assert(p1.staked_amount * (accrued_index(v1, now) - p1.reward_per_token_paid) == 0) by (nonlinear_arith)
        requires
            accrued_index(v1, now) == p1.reward_per_token_paid,
    ;
    assert(pending_reward(p1.staked_amount, accrued_index(v1, now), p1.reward_per_token_paid) == 0);
}

/// No instruction lowers the vault's reward index, and every instruction
/// that succeeds leaves the user settled at the vault's current index.
pub proof fn instructions_keep_index_and_settle_user(
    v: Vault,
    p: UserStakeProfile,
    user: Key,
    amount: u64,
    now: i64,
)
    ensures
        deposit_within_limits(v, p, amount, now) ==> (deposit_spec(v, p, user, amount, now) matches Ok((v1, p1))
            ==> {
            &&& v1.reward_per_token_stored >= v.reward_per_token_stored
            &&& p1.reward_per_token_paid == v1.reward_per_token_stored
        }),
        claim_within_limits(v, p, now) ==> (claim_spec(v, p, now) matches Ok((v1, p1, _)) ==> {
            &&& v1.reward_per_token_stored >= v.reward_per_token_stored
            &&& p1.reward_per_token_paid == v1.reward_per_token_stored
        }),
        withdraw_within_limits(v, p, amount, now) ==> (withdraw_spec(v, p, amount, now) matches Ok((v1, p1))
            ==> {
            &&& v1.reward_per_token_stored >= v.reward_per_token_stored
            &&& p1.reward_per_token_paid == v1.reward_per_token_stored
        }),
{
    if v.total_staked > 0 {
        index_increase_nonnegative(v, now);
    }
}

/// The index only grows.
proof fn index_increase_nonnegative(v: Vault, now: i64)
    requires
        v.total_staked > 0,
    ensures
        index_increase(v, now) >= 0,
{
    let e = elapsed_as_u128(now, v.last_updated);
    assert(e * v.reward_rate * PRECISION / (v.total_staked as int) >= 0) by (nonlinear_arith)
        requires
            e >= 0,
            v.reward_rate >= 0,
            v.total_staked > 0,
    ;
}

/// While nothing is staked the reward index does not move.
pub proof fn no_rewards_accrue_without_stake(v: Vault, now: i64)
    requires
        v.total_staked == 0,
    ensures
        accrued_vault(v, now).reward_per_token_stored == v.reward_per_token_stored,
{
}

/// A user's stake never exceeds the vault's total: deposits and withdrawals
/// keep `staked_amount <= total_staked`, and a claim changes neither.
pub proof fn stake_stays_within_total(
    v: Vault,
    p: UserStakeProfile,
    user: Key,
    amount: u64,
    now: i64,
)
    requires
        p.staked_amount <= v.total_staked,
    ensures
        deposit_within_limits(v, p, amount, now) ==> (deposit_spec(v, p, user, amount, now) matches Ok((v1, p1))
            ==> p1.staked_amount <= v1.total_staked),
        withdraw_within_limits(v, p, amount, now) ==> (withdraw_spec(v, p, amount, now) matches Ok((v1, p1))
            ==> p1.staked_amount <= v1.total_staked),
        claim_spec(v, p, now) matches Ok((v1, p1, _)) ==> {
            &&& v1.total_staked == v.total_staked
            &&& p1.staked_amount == p.staked_amount
        },
{
}

/// A claim pays out everything the user has earned, including what accrued
/// up to now, and leaves nothing owed; deposits and withdrawals never lower
/// what the user has earned.
pub proof fn claim_pays_all_earned(
    v: Vault,
    p: UserStakeProfile,
    user: Key,
    amount: u64,
    now: i64,
)
    ensures
        claim_within_limits(v, p, now) ==> (claim_spec(v, p, now) matches Ok((_, p1, payout)) ==> {
            &&& p1.rewards_earned == 0
            &&& payout == p.rewards_earned + pending_reward(
                p.staked_amount,
                accrued_index(v, now),
                p.reward_per_token_paid,
            )
        }),
        deposit_within_limits(v, p, amount, now) ==> (deposit_spec(v, p, user, amount, now) matches Ok((_, p1))
            ==> p1.rewards_earned >= p.rewards_earned),
        withdraw_within_limits(v, p, amount, now) ==> (withdraw_spec(v, p, amount, now) matches Ok((_, p1))
            ==> p1.rewards_earned >= p.rewards_earned),
{
    let idx = accrued_index(v, now);
    if idx >= p.reward_per_token_paid {
        assert(p.staked_amount * (idx - p.reward_per_token_paid) / (PRECISION as int) >= 0) by (nonlinear_arith)
            requires
                idx - p.reward_per_token_paid >= 0,
                p.staked_amount >= 0,
        ;
    }
}

/// The stake of all the given profiles together.
pub open spec fn total_stake(ps: Seq<UserStakeProfile>) -> int
    decreases ps.len(),
{
    if ps.len() == 0 {
        0
    } else {
        total_stake(ps.drop_last()) + ps.last().staked_amount
    }
}

/// Replacing one profile changes the sum by the difference of its stakes.
proof fn total_stake_update(ps: Seq<UserStakeProfile>, i: int, p: UserStakeProfile)
    requires
        0 <= i < ps.len(),
    ensures
        total_stake(ps.update(i, p)) == total_stake(ps) - ps[i].staked_amount + p.staked_amount,
    decreases ps.len(),
{
    let qs = ps.update(i, p);
    if i == ps.len() - 1 {
        assert(qs.drop_last() =~= ps.drop_last());
    } else {
        total_stake_update(ps.drop_last(), i, p);
        assert(qs.drop_last() =~= ps.drop_last().update(i, p));
    }
}

/// The vault's total is the sum of its users' stakes, and every deposit or
/// withdrawal by one user keeps it so: the others' stakes are untouched and
/// the vault's total moves by exactly what the one user's stake moves.
pub proof fn total_stays_the_sum_of_stakes(
    v: Vault,
    ps: Seq<UserStakeProfile>,
    i: int,
    user: Key,
    amount: u64,
    now: i64,
)
    requires
        0 <= i < ps.len(),
        total_stake(ps) == v.total_staked,
    ensures
        deposit_within_limits(v, ps[i], amount, now) ==> (deposit_spec(v, ps[i], user, amount, now) matches Ok(
            (v1, p1),
        ) ==> total_stake(ps.update(i, p1)) == v1.total_staked),
        withdraw_within_limits(v, ps[i], amount, now) ==> (withdraw_spec(v, ps[i], amount, now) matches Ok((v1, p1))
            ==> total_stake(ps.update(i, p1)) == v1.total_staked),
        claim_spec(v, ps[i], now) matches Ok((v1, p1, _)) ==> total_stake(ps.update(i, p1)) == v1.total_staked,
{
    if let Ok((v1, p1)) = deposit_spec(v, ps[i], user, amount, now) {
        total_stake_update(ps, i, p1);
    }
    if let Ok((v1, p1)) = withdraw_spec(v, ps[i], amount, now) {
        total_stake_update(ps, i, p1);
    }
    if let Ok((v1, p1, _)) = claim_spec(v, ps[i], now) {
        total_stake_update(ps, i, p1);
    }
}

/// Every profile of the vault was settled at an index no higher than the
/// vault's current one.
pub open spec fn profiles_settled_within(v: Vault, ps: Seq<UserStakeProfile>) -> bool {
    forall|j: int| 0 <= j < ps.len() ==> #[trigger] ps[j].reward_per_token_paid <= v.reward_per_token_stored
}

/// No profile's paid index ever passes the vault's index. A new vault has
/// index zero, a fresh profile has paid index zero, and every successful
/// instruction on one profile keeps all profiles at or below the (never
/// falling) vault index; so when settling, `index - paid` is never negative.
/// With the clock not going backwards, the vault's `last_updated` never falls.
pub proof fn paid_index_stays_within_vault_index(
    v: Vault,
    ps: Seq<UserStakeProfile>,
    i: int,
    user: Key,
    amount: u64,
    now: i64,
)
    requires
        0 <= i < ps.len(),
        profiles_settled_within(v, ps),
    ensures
        accrued_index(v, now) >= ps[i].reward_per_token_paid,
        profiles_settled_within(
            v,
            ps.push(
                UserStakeProfile {
                    authority: user,
                    staked_amount: 0,
                    last_updated: 0,
                    reward_per_token_paid: 0,
                    rewards_earned: 0,
                },
            ),
        ),
        deposit_within_limits(v, ps[i], amount, now) ==> (deposit_spec(v, ps[i], user, amount, now) matches Ok(
            (v1, p1),
        ) ==> {
            &&& profiles_settled_within(v1, ps.update(i, p1))
            &&& now >= v.last_updated ==> v1.last_updated >= v.last_updated
        }),
        claim_within_limits(v, ps[i], now) ==> (claim_spec(v, ps[i], now) matches Ok((v1, p1, _)) ==> {
            &&& profiles_settled_within(v1, ps.update(i, p1))
            &&& now >= v.last_updated ==> v1.last_updated >= v.last_updated
        }),
        withdraw_within_limits(v, ps[i], amount, now) ==> (withdraw_spec(v, ps[i], amount, now) matches Ok((v1, p1))
            ==> {
            &&& profiles_settled_within(v1, ps.update(i, p1))
            &&& now >= v.last_updated ==> v1.last_updated >= v.last_updated
        }),
{
    if v.total_staked > 0 {
        index_increase_nonnegative(v, now);
    }
    assert(ps[i].reward_per_token_paid <= v.reward_per_token_stored);
    let fresh = UserStakeProfile {
        authority: user,
        staked_amount: 0,
        last_updated: 0,
        reward_per_token_paid: 0,
        rewards_earned: 0,
    };
    assert forall|j: int| 0 <= j < ps.push(fresh).len() implies #[trigger] ps.push(fresh)[j].reward_per_token_paid
        <= v.reward_per_token_stored by {
        if j < ps.len() {
            assert(ps.push(fresh)[j] == ps[j]);
        }
    }
    if deposit_within_limits(v, ps[i], amount, now) {
        if let Ok((v1, p1)) = deposit_spec(v, ps[i], user, amount, now) {
            assert forall|j: int| 0 <= j < ps.update(i, p1).len() implies #[trigger] ps.update(i, p1)[j].reward_per_token_paid
                <= v1.reward_per_token_stored by {
                if j != i {
                    assert(ps[j].reward_per_token_paid <= v.reward_per_token_stored);
                }
            }
        }
    }
    if claim_within_limits(v, ps[i], now) {
        if let Ok((v1, p1, _)) = claim_spec(v, ps[i], now) {
            assert forall|j: int| 0 <= j < ps.update(i, p1).len() implies #[trigger] ps.update(i, p1)[j].reward_per_token_paid
                <= v1.reward_per_token_stored by {
                if j != i {
                    assert(ps[j].reward_per_token_paid <= v.reward_per_token_stored);
                }
            }
        }
    }
    if withdraw_within_limits(v, ps[i], amount, now) {
        if let Ok((v1, p1)) = withdraw_spec(v, ps[i], amount, now) {
            assert forall|j: int| 0 <= j < ps.update(i, p1).len() implies #[trigger] ps.update(i, p1)[j].reward_per_token_paid
                <= v1.reward_per_token_stored by {
                if j != i {
                    assert(ps[j].reward_per_token_paid <= v.reward_per_token_stored);
                }
            }
        }
    }
}

/// A new vault starts with every (freshly created) profile settled within it.
pub proof fn new_vault_starts_settled(ctx: Vaultinit, reward_rate: u64, ps: Seq<UserStakeProfile>)
    requires
        forall|j: int| 0 <= j < ps.len() ==> #[trigger] ps[j].reward_per_token_paid == 0,
    ensures
        profiles_settled_within(initial_vault(ctx, reward_rate), ps),
{
}

// ---------------------------------------------------------------------------
// Laws stated in plain arithmetic
// ---------------------------------------------------------------------------

/// The reward index at `now >= last_updated`, written out: it grows by
/// `elapsed * rate * 10^12 / total_staked` while tokens are staked.
pub open spec fn forward_index(v: Vault, now: i64) -> int {
    if v.total_staked > 0 {
        v.reward_per_token_stored + (now - v.last_updated) * v.reward_rate * 1_000_000_000_000int
            / (v.total_staked as int)
    } else {
        v.reward_per_token_stored as int
    }
}

/// With the clock not going backwards, the index update overflows nothing.
pub open spec fn forward_index_fits(v: Vault, now: i64) -> bool {
    &&& now >= v.last_updated
    &&& now - v.last_updated <= i64::MAX
    &&& v.total_staked > 0 ==> (now - v.last_updated) * v.reward_rate * 1_000_000_000_000int <= u128::MAX
    &&& forward_index(v, now) <= u128::MAX
}

/// What a user's own stake earned between the index it was paid at and
/// `index`: `staked_amount * (index - paid) / 10^12`.
pub open spec fn own_share(p: UserStakeProfile, index: int) -> int {
    p.staked_amount * (index - p.reward_per_token_paid) / 1_000_000_000_000int
}

/// Settling `p` at `index` stays within `u128` and `u64`.
pub open spec fn own_share_fits(p: UserStakeProfile, index: int) -> bool {
    &&& index >= p.reward_per_token_paid
    &&& p.staked_amount * (index - p.reward_per_token_paid) <= u128::MAX
    &&& own_share(p, index) <= u64::MAX
    &&& p.rewards_earned + own_share(p, index) <= u64::MAX
}

/// A deposit of `amount > 0` whose arithmetic fits succeeds. It credits the
/// user with what its *own* stake earned since it was last paid (so two users
/// with equal stakes and the same paid index earn the same, whatever else is
/// staked), moves the index forward by `elapsed * rate * 10^12 / total`, adds
/// `amount` to both the vault's total and the user's stake, makes the user
/// the profile's authority and settles it at the new index.
pub proof fn deposit_credits_own_stake(v: Vault, p: UserStakeProfile, user: Key, amount: u64, now: i64)
    requires
        amount > 0,
        forward_index_fits(v, now),
        p.staked_amount > 0 ==> own_share_fits(p, forward_index(v, now)),
        v.total_staked + amount <= u64::MAX,
        p.staked_amount + amount <= u64::MAX,
    ensures
        deposit_within_limits(v, p, amount, now),
        deposit_spec(v, p, user, amount, now) matches Ok((v1, p1)) && {
            &&& v1.reward_per_token_stored == forward_index(v, now)
            &&& v1.last_updated == now
            &&& v1.total_staked == v.total_staked + amount
            &&& v1.reward_rate == v.reward_rate
            &&& v1.admin == v.admin
            &&& v1.staked_mint == v.staked_mint
            &&& v1.reward_mint == v.reward_mint
            &&& v1.bump == v.bump
            &&& p1.authority == user
            &&& p1.staked_amount == p.staked_amount + amount
            &&& p1.last_updated == now
            &&& p1.reward_per_token_paid == forward_index(v, now)
            &&& p1.rewards_earned == p.rewards_earned + (if p.staked_amount > 0 {
                own_share(p, forward_index(v, now))
            } else {
                0
            })
        },
{
    assert(elapsed_as_u128(now, v.last_updated) == now - v.last_updated);
    assert(accrued_index(v, now) == forward_index(v, now));
}

/// A claim whose arithmetic fits always succeeds, whatever the user's stake
/// (a user who withdrew everything is still paid what it earned). It pays
/// the rewards already earned plus what the user's own stake earned up to
/// now, leaves nothing owed, settles the user at the new index and changes
/// no stake.
pub proof fn claim_pays_earned_plus_own_share(v: Vault, p: UserStakeProfile, now: i64)
    requires
        forward_index_fits(v, now),
        own_share_fits(p, forward_index(v, now)),
    ensures
        claim_within_limits(v, p, now),
        claim_spec(v, p, now) matches Ok((v1, p1, payout)) && {
            &&& payout == p.rewards_earned + own_share(p, forward_index(v, now))
            &&& p1.rewards_earned == 0
            &&& p1.staked_amount == p.staked_amount
            &&& p1.authority == p.authority
            &&& p1.last_updated == now
            &&& p1.reward_per_token_paid == forward_index(v, now)
            &&& v1.reward_per_token_stored == forward_index(v, now)
            &&& v1.last_updated == now
            &&& v1.total_staked == v.total_staked
        },
{
    assert(elapsed_as_u128(now, v.last_updated) == now - v.last_updated);
    assert(accrued_index(v, now) == forward_index(v, now));
}

/// A withdrawal of `0 < amount <= staked_amount` from a vault holding at
/// least `amount`, whose arithmetic fits, succeeds. It credits the user with
/// what its *own* stake earned since it was last paid, moves the index
/// forward, takes `amount` off both the vault's total and the user's stake,
/// and settles the user at the new index.
pub proof fn withdraw_credits_own_stake(v: Vault, p: UserStakeProfile, amount: u64, now: i64)
    requires
        0 < amount <= p.staked_amount,
        amount <= v.total_staked,
        forward_index_fits(v, now),
        own_share_fits(p, forward_index(v, now)),
    ensures
        withdraw_within_limits(v, p, amount, now),
        withdraw_spec(v, p, amount, now) matches Ok((v1, p1)) && {
            &&& v1.reward_per_token_stored == forward_index(v, now)
            &&& v1.last_updated == now
            &&& v1.total_staked == v.total_staked - amount
            &&& v1.reward_rate == v.reward_rate
            &&& p1.authority == p.authority
            &&& p1.staked_amount == p.staked_amount - amount
            &&& p1.last_updated == now
            &&& p1.reward_per_token_paid == forward_index(v, now)
            &&& p1.rewards_earned == p.rewards_earned + own_share(p, forward_index(v, now))
        },
{
    assert(elapsed_as_u128(now, v.last_updated) == now - v.last_updated);
    assert(accrued_index(v, now) == forward_index(v, now));
}

/// A new vault records its admin, mints, bump and reward rate, with nothing
/// staked, an index of zero and a last update at time zero.
pub proof fn new_vault_is_empty(ctx: Vaultinit, reward_rate: u64)
    ensures
        ({
            let v = initial_vault(ctx, reward_rate);
            &&& v.admin == ctx.admin
            &&& v.staked_mint == ctx.staked_mint
            &&& v.reward_mint == ctx.reward_mint
            &&& v.bump == ctx.vault_bump
            &&& v.reward_rate == reward_rate
            &&& v.total_staked == 0
            &&& v.reward_per_token_stored == 0
            &&& v.last_updated == 0
        }),
{
}

/// The refusals: a deposit of zero, a withdrawal of zero or of more than the
/// user's stake are `InvalidAmount`; a withdrawal within the stake from a
/// vault with nothing staked is `VaultEmpty`; and an instruction whose own
/// share of rewards exceeds a `u64` is a numeric conversion error.
pub proof fn staking_refusals(v: Vault, p: UserStakeProfile, user: Key, amount: u64, now: i64)
    ensures
        amount == 0 ==> deposit_spec(v, p, user, amount, now) == Err::<(Vault, UserStakeProfile), StakingFailure>(
            StakingFailure::Staking(StakingErrors::InvalidAmount),
        ),
        (amount == 0 || amount > p.staked_amount) ==> withdraw_spec(v, p, amount, now) == Err::<
            (Vault, UserStakeProfile),
            StakingFailure,
        >(StakingFailure::Staking(StakingErrors::InvalidAmount)),
        (0 < amount <= p.staked_amount && v.total_staked == 0) ==> withdraw_spec(v, p, amount, now) == Err::<
            (Vault, UserStakeProfile),
            StakingFailure,
        >(StakingFailure::Staking(StakingErrors::VaultEmpty)),
        (forward_index_fits(v, now) && p.staked_amount * (forward_index(v, now) - p.reward_per_token_paid)
            / 1_000_000_000_000int > u64::MAX) ==> claim_spec(v, p, now) == Err::<
            (Vault, UserStakeProfile, u64),
            StakingFailure,
        >(StakingFailure::InvalidNumericConversion),
{
    if forward_index_fits(v, now) {
        assert(elapsed_as_u128(now, v.last_updated) == now - v.last_updated);
        assert(accrued_index(v, now) == forward_index(v, now));
    }
}

} // verus!
