use solana_programs::sol_vault::{deposit, withdraw, LamportSigner, VaultAction, VaultErrors};

fn rent_minimum_for_empty_account() -> u64 {
    solana_program::rent::Rent::default().minimum_balance(0)
}

fn action(vault_lamports: u64) -> VaultAction {
    VaultAction { user: [7u8; 32], vault: [9u8; 32], vault_lamports, vault_bump: 254 }
}

#[test]
fn deposit_sol_in_vault() {
    let user_before: u64 = 1_000_000_000;
    let rent = rent_minimum_for_empty_account();
    let amount = rent + 1;
    let ctx = action(0);
    assert_eq!(ctx.vault_lamports, 0);

    let t = deposit(&ctx, amount, rent).expect("shouuld be able to deposit");
    assert_eq!(t.from, ctx.user);
    assert_eq!(t.to, ctx.vault);
    assert!(matches!(t.signer, LamportSigner::User));

    // The system program moves the lamports as planned.
    let vault_after = ctx.vault_lamports + t.lamports;
    let user_after = user_before - t.lamports;
    assert_eq!(vault_after, amount);
    assert_eq!(user_after, user_before - amount);
}

#[test]
fn deposit_refused_when_vault_holds_lamports() {
    let rent = rent_minimum_for_empty_account();
    assert!(matches!(deposit(&action(1), rent + 1, rent), Err(VaultErrors::VaultAlreadyExists)));
}

#[test]
fn deposit_must_exceed_rent_minimum() {
    let rent = rent_minimum_for_empty_account();
    assert_eq!(rent, 890_880);
    assert!(matches!(deposit(&action(0), rent, rent), Err(VaultErrors::InvalidAmount)));
    assert!(matches!(deposit(&action(0), 0, rent), Err(VaultErrors::InvalidAmount)));
    assert!(deposit(&action(0), rent + 1, rent).is_ok());
}

#[test]
fn withdraw_takes_everything_back() {
    let rent = rent_minimum_for_empty_account();
    let ctx = action(0);
    let t = deposit(&ctx, 2_000_000, rent).unwrap();
    let filled = VaultAction { vault_lamports: t.lamports, ..ctx };
    let w = withdraw(&filled).unwrap();
    assert_eq!(w.from, ctx.vault);
    assert_eq!(w.to, ctx.user);
    assert_eq!(w.lamports, 2_000_000);
    match w.signer {
        LamportSigner::Vault { user, bump } => {
            assert_eq!(user, ctx.user);
            assert_eq!(bump, 254);
        }
        LamportSigner::User => panic!("the vault must sign"),
    }
}

#[test]
fn withdraw_from_empty_vault_is_refused() {
    assert!(matches!(withdraw(&action(0)), Err(VaultErrors::InvalidAmount)));
}
