use anchor_spl::token_2022::spl_token_2022::extension::transfer_fee::{TransferFee, TransferFeeConfig};
use anchor_spl::token_2022::spl_token_2022::extension::{BaseStateWithExtensionsMut, ExtensionType, StateWithExtensionsMut};
use anchor_spl::token_2022::spl_token_2022::state::Mint;
use solana_program::program_option::COption;
use solana_program::pubkey::Pubkey;
use solana_programs::transfer_fee::{
    initialize_transfer_fee_config, plan_transfer_with_fee, transfer_checked_alsowith_fee, FeeSchedule, Initialize,
    Transfer, TransferFeeRate, TransferWithFee,
};

const SIGNER: [u8; 32] = [21u8; 32];
const MINT: [u8; 32] = [22u8; 32];

fn rate(epoch: u64, maximum_fee: u64, basis_points: u16) -> TransferFeeRate {
    TransferFeeRate { epoch, maximum_fee, basis_points }
}

fn mint_data(older: TransferFeeRate, newer: TransferFeeRate) -> Vec<u8> {
    let len = ExtensionType::try_calculate_account_len::<Mint>(&[ExtensionType::TransferFeeConfig]).unwrap();
    let mut buffer = vec![0u8; len];
    let mut state = StateWithExtensionsMut::<Mint>::unpack_uninitialized(&mut buffer).unwrap();
    let config = state.init_extension::<TransferFeeConfig>(true).unwrap();
    config.older_transfer_fee = TransferFee {
        epoch: older.epoch.into(),
        maximum_fee: older.maximum_fee.into(),
        transfer_fee_basis_points: older.basis_points.into(),
    };
    config.newer_transfer_fee = TransferFee {
        epoch: newer.epoch.into(),
        maximum_fee: newer.maximum_fee.into(),
        transfer_fee_basis_points: newer.basis_points.into(),
    };
    state.base = Mint {
        mint_authority: COption::Some(Pubkey::new_from_array(SIGNER)),
        supply: 0,
        decimals: 2,
        is_initialized: true,
        freeze_authority: COption::None,
    };
    state.pack_base();
    state.init_account_type().unwrap();
    buffer
}

#[test]
fn fee_mint_is_laid_out_for_the_extension() {
    let s = initialize_transfer_fee_config(&Initialize { signer: SIGNER, mint_account: MINT }, 150, 9_000).unwrap();
    assert_eq!(s.space, 278);
    assert_eq!(s.owner, anchor_spl::token_2022::ID.to_bytes());
    assert_eq!(s.payer, SIGNER);
    assert_eq!(s.mint, MINT);
    assert_eq!(s.transfer_fee_config_authority, SIGNER);
    assert_eq!(s.withdraw_withheld_authority, SIGNER);
    assert_eq!(s.transfer_fee_basis_points, 150);
    assert_eq!(s.maximum_fee, 9_000);
    assert_eq!(s.decimals, 2);
    assert_eq!(s.mint_authority, SIGNER);
    assert_eq!(s.freeze_authority, SIGNER);
    let len = ExtensionType::try_calculate_account_len::<Mint>(&[ExtensionType::TransferFeeConfig]).unwrap();
    assert_eq!(len as u64, s.space);
}

#[test]
fn fee_is_read_from_the_mint_and_rounded_up() {
    let data = mint_data(rate(0, 1_000, 100), rate(50, 1_000, 100));
    let ctx = Transfer { mint_data: data, mint_decimals: 2 };
    // 1 % of 12 345 is 123.45, charged as 124.
    assert_eq!(transfer_checked_alsowith_fee(&ctx, 60, 12_345), Some(Ok(TransferWithFee { amount: 12_345, decimals: 2, fee: 124 })));
    // Capped at the maximum fee.
    assert_eq!(transfer_checked_alsowith_fee(&ctx, 60, 1_000_000).unwrap().unwrap().fee, 1_000);
    // Nothing to pay on nothing.
    assert_eq!(transfer_checked_alsowith_fee(&ctx, 60, 0).unwrap().unwrap().fee, 0);
}

#[test]
fn newer_fee_applies_from_its_epoch() {
    let data = mint_data(rate(0, 500, 10), rate(100, 500, 200));
    let ctx = Transfer { mint_data: data, mint_decimals: 2 };
    assert_eq!(transfer_checked_alsowith_fee(&ctx, 99, 10_000).unwrap().unwrap().fee, 10);
    assert_eq!(transfer_checked_alsowith_fee(&ctx, 100, 10_000).unwrap().unwrap().fee, 200);
}

#[test]
fn unreadable_mint_data_is_an_error() {
    let ctx = Transfer { mint_data: vec![0u8; 10], mint_decimals: 2 };
    let expected: u64 = solana_program::program_error::ProgramError::InvalidAccountData.into();
    assert_eq!(transfer_checked_alsowith_fee(&ctx, 0, 5), Some(Err(expected)));
}

#[test]
fn fee_beyond_u64_is_where_the_program_aborts() {
    let data = mint_data(rate(0, u64::MAX, 60_000), rate(0, u64::MAX, 60_000));
    let ctx = Transfer { mint_data: data, mint_decimals: 2 };
    assert_eq!(transfer_checked_alsowith_fee(&ctx, 0, u64::MAX), None);
}

#[test]
fn plan_states_the_epoch_fee() {
    let s = FeeSchedule { older: rate(0, 7, 10_000), newer: rate(10, 3, 5_000) };
    assert_eq!(plan_transfer_with_fee(&s, 6, 9, 5).fee, 5);
    assert_eq!(plan_transfer_with_fee(&s, 6, 9, 8).fee, 7);
    assert_eq!(plan_transfer_with_fee(&s, 6, 10, 5).fee, 3);
    assert_eq!(plan_transfer_with_fee(&s, 6, 10, 1).fee, 1);
}
