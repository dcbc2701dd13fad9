use solana_program::pubkey::Pubkey;
use solana_programs::escrow::escrow_signer_seeds;
use solana_programs::keys::{key_bytes, keys_equal, vault_seed, vault_signer_seeds};

#[test]
fn vault_seeds_sign_for_the_derived_vault() {
    let owner = [17u8; 32];
    let program = Pubkey::new_from_array([99u8; 32]);
    let (vault, bump) = Pubkey::find_program_address(&[b"vault", owner.as_ref()], &program);
    let seeds = vault_signer_seeds(&owner, bump);
    assert_eq!(seeds, vec![b"vault".to_vec(), owner.to_vec(), vec![bump]]);
    let refs: Vec<&[u8]> = seeds.iter().map(|s| s.as_slice()).collect();
    assert_eq!(Pubkey::create_program_address(&refs, &program).unwrap(), vault);
}

#[test]
fn escrow_seeds_sign_for_the_derived_escrow() {
    let maker = [23u8; 32];
    let escrow_id: u32 = 0x0102_0304;
    let program = Pubkey::new_from_array([98u8; 32]);
    let (escrow, bump) =
        Pubkey::find_program_address(&[b"escrow", maker.as_ref(), &escrow_id.to_le_bytes()], &program);
    let seeds = escrow_signer_seeds(&maker, escrow_id, bump);
    assert_eq!(seeds, vec![b"escrow".to_vec(), maker.to_vec(), vec![4, 3, 2, 1], vec![bump]]);
    let refs: Vec<&[u8]> = seeds.iter().map(|s| s.as_slice()).collect();
    assert_eq!(Pubkey::create_program_address(&refs, &program).unwrap(), escrow);
}

#[test]
fn key_helpers() {
    let a = [1u8; 32];
    let mut b = a;
    assert!(keys_equal(&a, &b));
    b[31] = 2;
    assert!(!keys_equal(&a, &b));
    assert_eq!(key_bytes(&b), b.to_vec());
    assert_eq!(vault_seed(), b"vault".to_vec());
}
