//! Token-2022 mints with a transfer fee.
//!
//! `initialize_transfer_fee_config` lays out a mint that carries the
//! transfer-fee extension, with the signer as every authority and two
//! decimals. `transfer_checked_alsowith_fee` reads the fee schedule out of the
//! mint's data, works out the fee that Token-2022 will charge in the current
//! epoch and asks for a checked transfer that states that fee.
use vstd::prelude::*;

use anchor_spl::token_2022::spl_token_2022::extension::{BaseStateWithExtensions, StateWithExtensions, ExtensionType};
use anchor_spl::token_2022::spl_token_2022::extension::transfer_fee::{TransferFee, TransferFeeConfig};
use anchor_spl::token_2022::spl_token_2022::pod::PodMint;
use anchor_spl::token_2022::spl_token_2022::state::Mint;

use crate::keys::Key;

verus! {

/// One transfer fee: from `epoch` on, `basis_points` hundredths of a
/// percent of the amount, rounded up and capped at `maximum_fee`.
#[derive(Clone, Copy, PartialEq, Eq, Structural, Debug)]
pub struct TransferFeeRate {
    pub epoch: u64,
    pub maximum_fee: u64,
    pub basis_points: u16,
}

/// The fee schedule of a mint: the newer fee applies from its epoch on, the
/// older one before.
#[derive(Clone, Copy, PartialEq, Eq, Structural, Debug)]
pub struct FeeSchedule {
    pub older: TransferFeeRate,
    pub newer: TransferFeeRate,
}

/// The accounts of `initialize_transfer_fee_config` that the logic reads.
pub struct Initialize {
    pub signer: Key,
    pub mint_account: Key,
}

/// The accounts of `transfer_checked_alsowith_fee` that the logic reads:
/// the mint's raw data and its decimals.
pub struct Transfer {
    pub mint_data: Vec<u8>,
    pub mint_decimals: u8,
}

/// What `initialize_transfer_fee_config` asks of the runtime, in order:
/// create the mint account with `space` bytes (funded by `payer` with the
/// rent-exempt minimum for that size, owned by `owner`, Token-2022), initialize its
/// transfer fee, then initialize the mint.
#[derive(Clone, Copy)]
pub struct FeeMintSetup {
    pub payer: Key,
    pub mint: Key,
    pub space: u64,
    pub owner: Key,
    pub transfer_fee_config_authority: Key,
    pub withdraw_withheld_authority: Key,
    pub transfer_fee_basis_points: u16,
    pub maximum_fee: u64,
    pub decimals: u8,
    pub mint_authority: Key,
    pub freeze_authority: Key,
}

/// The checked transfer with fee that `transfer_checked_alsowith_fee` asks
/// of Token-2022, from the sender's token account to the recipient's.
#[derive(Clone, Copy, PartialEq, Eq, Structural, Debug)]
pub struct TransferWithFee {
    pub amount: u64,
    pub decimals: u8,
    pub fee: u64,
}

/// The size of a mint that carries only the transfer-fee extension: the
/// 165-byte base, one account-type byte, and one extension entry of a 2-byte
/// type, a 2-byte length and the 108-byte fee configuration.
pub open spec fn transfer_fee_mint_len() -> int {
    278
}

// ---------------------------------------------------------------------------
// Outside functions
// ---------------------------------------------------------------------------

/// Calls `ExtensionType::try_calculate_account_len::<PodMint>` with the
/// transfer-fee extension alone; claims the result is `Ok(278)`, which its
/// source computes as `BASE_ACCOUNT_AND_TYPE_LENGTH` (166) plus the
/// extension's type, length and value (2 + 2 + 108).
#[verifier::external_body]
fn transfer_fee_mint_account_len() -> (res: Result<usize, u64>)
    ensures
        res is Ok,
        res->Ok_0 == transfer_fee_mint_len(),
{
    match ExtensionType::try_calculate_account_len::<PodMint>(&[ExtensionType::TransferFeeConfig]) {
        Ok(len) => Ok(len),
        Err(e) => Err(u64::from(e)),
    }
}

/// The Token-2022 program's id, `TokenzQdBNbLqP5VEhdkAS6EPFLC1PHnBqCXEpPxuEb`
/// in base 58.
pub open spec fn token_2022_program_bytes() -> Seq<u8> {
    seq![
        6u8, 221u8, 246u8, 225u8, 238u8, 117u8, 143u8, 222u8, 24u8, 66u8, 93u8, 188u8, 228u8, 108u8, 205u8, 218u8,
        182u8, 26u8, 252u8, 77u8, 131u8, 185u8, 13u8, 39u8, 254u8, 189u8, 249u8, 40u8, 216u8, 161u8, 139u8, 252u8,
    ]
}

/// Reads `anchor_spl::token_2022::ID`, Token-2022's `declare_id!` of
/// `"TokenzQdBNbLqP5VEhdkAS6EPFLC1PHnBqCXEpPxuEb"`; claims its 32 bytes are
/// that base-58 string decoded.
#[verifier::external_body]
fn token_2022_program_id() -> (id: Key)
    ensures
        id@ == token_2022_program_bytes(),
{
    anchor_spl::token_2022::ID.to_bytes()
}

/// The fee schedule that Token-2022 reads from a mint account's data, or the
/// code of the error it reports: unpacking the base mint and its extension
/// entries and finding the transfer-fee entry takes pages to state, and
/// depends on the bytes alone.
pub uninterp spec fn mint_transfer_fees(data: Seq<u8>) -> Result<FeeSchedule, u64>;

/// Calls `StateWithExtensions::<Mint>::unpack` and `get_extension` for
/// `TransferFeeConfig`, keeping the two fees; claims only that the result is
/// the named reading of the bytes (a `ProgramError` becomes its `u64` code).
#[verifier::external_body]
fn read_transfer_fees(data: &[u8]) -> (res: Result<FeeSchedule, u64>)
    ensures
        res == mint_transfer_fees(data@),
{
    let mint = match StateWithExtensions::<Mint>::unpack(data) {
        Ok(m) => m,
        Err(e) => return Err(u64::from(e)),
    };
    match mint.get_extension::<TransferFeeConfig>() {
        Ok(c) => {
            let (o, n) = (&c.older_transfer_fee, &c.newer_transfer_fee);
            Ok(FeeSchedule {
                older: TransferFeeRate { epoch: o.epoch.into(), maximum_fee: o.maximum_fee.into(), basis_points: o.transfer_fee_basis_points.into() },
                newer: TransferFeeRate { epoch: n.epoch.into(), maximum_fee: n.maximum_fee.into(), basis_points: n.transfer_fee_basis_points.into() },
            })
        },
        Err(e) => Err(u64::from(e)),
    }
}

/// The fee that applies in `epoch`.
pub open spec fn fee_for_epoch(s: FeeSchedule, epoch: u64) -> TransferFeeRate {
    if epoch >= s.newer.epoch {
        s.newer
    } else {
        s.older
    }
}

/// `TransferFee::calculate_fee`: zero for a zero rate or amount, else the
/// amount times the rate over 10 000 rounded up, capped at the maximum fee;
/// `None` when that rounded value does not fit in a `u64`.
pub open spec fn rate_fee(f: TransferFeeRate, amount: u64) -> Option<u64> {
    if f.basis_points == 0 || amount == 0 {
        Some(0)
    } else {
        let raw = (amount * f.basis_points + 10_000 - 1) / 10_000;
        if raw > u64::MAX {
            None
        } else if raw < f.maximum_fee {
            Some(raw as u64)
        } else {
            Some(f.maximum_fee)
        }
    }
}

/// `TransferFeeConfig::calculate_epoch_fee`.
pub open spec fn epoch_fee(s: FeeSchedule, epoch: u64, amount: u64) -> Option<u64> {
    rate_fee(fee_for_epoch(s, epoch), amount)
}

/// Calls `TransferFeeConfig::calculate_epoch_fee` on a configuration holding
/// the two fees; claims the result is `epoch_fee`, which restates its source:
/// pick the newer fee from its epoch on, then `calculate_fee`.
#[verifier::external_body]
fn calculate_epoch_fee(s: &FeeSchedule, epoch: u64, amount: u64) -> (res: Option<u64>)
    ensures
        res == epoch_fee(*s, epoch, amount),
{
    let config = TransferFeeConfig {
        older_transfer_fee: TransferFee { epoch: s.older.epoch.into(), maximum_fee: s.older.maximum_fee.into(), transfer_fee_basis_points: s.older.basis_points.into() },
        newer_transfer_fee: TransferFee { epoch: s.newer.epoch.into(), maximum_fee: s.newer.maximum_fee.into(), transfer_fee_basis_points: s.newer.basis_points.into() },
        ..TransferFeeConfig::default()
    };
    config.calculate_epoch_fee(epoch, amount)
}

// ---------------------------------------------------------------------------
// The instructions
// ---------------------------------------------------------------------------

/// Lays out the fee mint: a Token-2022 account sized for the transfer-fee
/// extension, the signer as fee authority, withheld-withdraw authority, mint
/// authority and freeze authority, the given fee rate and cap, two decimals.
pub fn initialize_transfer_fee_config(ctx: &Initialize, transfer_fee_basis_points: u16, maximum_fee: u64) -> (res:
    Result<FeeMintSetup, u64>)
    ensures
        res matches Ok(s) && {
            &&& s.payer == ctx.signer
            &&& s.mint == ctx.mint_account
            &&& s.space == transfer_fee_mint_len()
            &&& s.owner@ == token_2022_program_bytes()
            &&& s.transfer_fee_config_authority == ctx.signer
            &&& s.withdraw_withheld_authority == ctx.signer
            &&& s.transfer_fee_basis_points == transfer_fee_basis_points
            &&& s.maximum_fee == maximum_fee
            &&& s.decimals == 2
            &&& s.mint_authority == ctx.signer
            &&& s.freeze_authority == ctx.signer
        },
{
    let mint_size = match transfer_fee_mint_account_len() {
        Ok(n) => n,
        Err(e) => return Err(e),
    };
    Ok(
        FeeMintSetup {
            payer: ctx.signer,
            mint: ctx.mint_account,
            space: mint_size as u64,
            owner: token_2022_program_id(),
            transfer_fee_config_authority: ctx.signer,
            withdraw_withheld_authority: ctx.signer,
            transfer_fee_basis_points,
            maximum_fee,
            decimals: 2,
            mint_authority: ctx.signer,
            freeze_authority: ctx.signer,
        },
    )
}

/// The transfer of `amount` in `epoch` under fee schedule `s`, for a mint
/// with `decimals`, stating the fee Token-2022 will charge.
pub fn plan_transfer_with_fee(s: &FeeSchedule, decimals: u8, epoch: u64, amount: u64) -> (t: TransferWithFee)
    requires
        epoch_fee(*s, epoch, amount) is Some,
    ensures
        t == (TransferWithFee { amount, decimals, fee: epoch_fee(*s, epoch, amount)->Some_0 }),
{
    let fee = match calculate_epoch_fee(s, epoch, amount) {
        Some(f) => f,
        None => 0,
    };
    TransferWithFee { amount, decimals, fee }
}

/// Reads the fee schedule from the mint's data and plans the transfer of
/// `amount` in `epoch`. `Some(Err(code))` when Token-2022 cannot read the
/// schedule; `None` when the fee does not fit in a `u64` (where the program
/// aborts); otherwise the planned transfer.
pub fn transfer_checked_alsowith_fee(ctx: &Transfer, epoch: u64, amount: u64) -> (res: Option<
    Result<TransferWithFee, u64>,
>)
    ensures
        match mint_transfer_fees(ctx.mint_data@) {
            Err(code) => res == Some(Err::<TransferWithFee, u64>(code)),
            Ok(s) => match epoch_fee(s, epoch, amount) {
                None => res is None,
                Some(fee) => res == Some(
                    Ok::<TransferWithFee, u64>(TransferWithFee { amount, decimals: ctx.mint_decimals, fee }),
                ),
            },
        },
{
    let schedule = match read_transfer_fees(ctx.mint_data.as_slice()) {
        Ok(s) => s,
        Err(code) => return Some(Err(code)),
    };
    match calculate_epoch_fee(&schedule, epoch, amount) {
        None => None,
        Some(_) => Some(Ok(plan_transfer_with_fee(&schedule, ctx.mint_decimals, epoch, amount))),
    }
}

// ---------------------------------------------------------------------------
// Laws
// ---------------------------------------------------------------------------

/// The fee never exceeds the cap of the fee in force, never exceeds the
/// amount when the rate is at most 100 %, is zero for a zero amount, and is
/// always defined when the rate is at most 100 %.
pub proof fn fee_is_bounded(s: FeeSchedule, epoch: u64, amount: u64)
    ensures
        epoch_fee(s, epoch, amount) matches Some(fee) ==> fee <= fee_for_epoch(s, epoch).maximum_fee,
        amount == 0 ==> epoch_fee(s, epoch, amount) == Some(0u64),
        fee_for_epoch(s, epoch).basis_points <= 10_000 ==> {
            &&& epoch_fee(s, epoch, amount) is Some
            &&& epoch_fee(s, epoch, amount)->Some_0 <= amount
        },
{
    let f = fee_for_epoch(s, epoch);
    if f.basis_points <= 10_000 && f.basis_points != 0 && amount != 0 {
        assert((amount * f.basis_points + 10_000 - 1) / 10_000 <= amount) by (nonlinear_arith)
            requires
                f.basis_points <= 10_000,
                amount >= 0,
        ;
    }
}

/// The newer fee governs every epoch from its own on, the older fee every
/// epoch before it.
pub proof fn newer_fee_applies_from_its_epoch(s: FeeSchedule, epoch: u64)
    ensures
        epoch >= s.newer.epoch ==> fee_for_epoch(s, epoch) == s.newer,
        epoch < s.newer.epoch ==> fee_for_epoch(s, epoch) == s.older,
{
}

} // verus!
