use solana_programs::escrow::{
    cancel, expired, make, take, Cancel, Escrow, EscrowError, EscrowSigner, EscrowTokenAccount,
    Expired, Make, Status, Take,
};

const MAKER: [u8; 32] = [10u8; 32];
const BUYER: [u8; 32] = [11u8; 32];
const OFFERED: [u8; 32] = [12u8; 32];
const WANTED: [u8; 32] = [13u8; 32];

fn make_ctx() -> Make {
    Make { user: MAKER, offered_mint: OFFERED, offered_mint_decimals: 6, wanted_mint: WANTED, escrow_bump: 250 }
}

fn open_escrow() -> Escrow {
    make(&make_ctx(), 500, 80, 1_000, 7, 100).unwrap().0
}

#[test]
fn make_opens_an_escrow_and_deposits() {
    let (e, t) = make(&make_ctx(), 500, 80, 1_000, 7, 100).unwrap();
    assert_eq!(e.authority, MAKER);
    assert_eq!(e.amount, 500);
    assert_eq!(e.cost, 80);
    assert_eq!(e.escrow_id, 7);
    assert_eq!(e.status, Status::Open);
    assert_eq!(e.deadline, 1_000);
    assert_eq!(e.offered_mint, OFFERED);
    assert_eq!(e.wanted_mint, WANTED);
    assert_eq!(e.version, 0);
    assert_eq!(e.bump, 250);
    assert_eq!(t.from, EscrowTokenAccount::MakerOffered);
    assert_eq!(t.to, EscrowTokenAccount::EscrowOffered);
    assert_eq!(t.amount, 500);
    assert_eq!(t.decimals, 6);
    assert!(matches!(t.signer, EscrowSigner::Maker));
}

#[test]
fn make_checks_its_arguments_in_order() {
    let ctx = make_ctx();
    assert!(matches!(make(&ctx, 0, 0, 0, 1, 100), Err(EscrowError::InvalidAmount)));
    assert!(matches!(make(&ctx, 1, 0, 0, 1, 100), Err(EscrowError::InvalidCost)));
    assert!(matches!(make(&ctx, 1, 1, 100, 1, 100), Err(EscrowError::InvalidDeadline)));
    let same = Make { wanted_mint: OFFERED, ..make_ctx() };
    assert!(matches!(make(&same, 1, 1, 101, 1, 100), Err(EscrowError::SameMint)));
}

#[test]
fn take_settles_the_swap() {
    let mut ctx = Take { buyer: BUYER, user: MAKER, offered_mint_decimals: 6, wanted_mint_decimals: 9, escrow: open_escrow() };
    let s = take(&mut ctx, 7, 1_000).unwrap();
    assert_eq!(ctx.escrow.status, Status::Completed);
    assert_eq!(s.payment.from, EscrowTokenAccount::BuyerWanted);
    assert_eq!(s.payment.to, EscrowTokenAccount::MakerWanted);
    assert_eq!(s.payment.amount, 80);
    assert_eq!(s.payment.decimals, 9);
    assert!(matches!(s.payment.signer, EscrowSigner::Buyer));
    assert_eq!(s.delivery.from, EscrowTokenAccount::EscrowOffered);
    assert_eq!(s.delivery.to, EscrowTokenAccount::BuyerOffered);
    assert_eq!(s.delivery.amount, 500);
    assert_eq!(s.delivery.decimals, 6);
    match s.delivery.signer {
        EscrowSigner::Escrow { maker, escrow_id, bump } => {
            assert_eq!(maker, MAKER);
            assert_eq!(escrow_id, 7);
            assert_eq!(bump, 250);
        }
        _ => panic!("the escrow must sign the delivery"),
    }
    assert_eq!(s.close.destination, MAKER);
    assert!(matches!(s.close.signer, EscrowSigner::Escrow { maker: MAKER, escrow_id: 7, bump: 250 }));
    // Settled for good.
    assert!(matches!(take(&mut ctx, 7, 1_000), Err(EscrowError::NotOpen)));
    let mut c = Cancel { user: MAKER, offered_mint_decimals: 6, escrow: ctx.escrow };
    assert!(matches!(cancel(&mut c, 7), Err(EscrowError::NotOpen)));
}

#[test]
fn take_refusals() {
    let mut late = Take { buyer: BUYER, user: MAKER, offered_mint_decimals: 6, wanted_mint_decimals: 9, escrow: open_escrow() };
    assert!(matches!(take(&mut late, 7, 1_001), Err(EscrowError::Expired)));
    assert_eq!(late.escrow.status, Status::Open);
    let mut own = Take { buyer: MAKER, user: MAKER, offered_mint_decimals: 6, wanted_mint_decimals: 9, escrow: open_escrow() };
    assert!(matches!(take(&mut own, 7, 500), Err(EscrowError::MakerCannotTake)));
    let closed = Escrow { status: Status::Cancelled, ..open_escrow() };
    let mut gone = Take { buyer: BUYER, user: MAKER, offered_mint_decimals: 6, wanted_mint_decimals: 9, escrow: closed };
    assert!(matches!(take(&mut gone, 7, 500), Err(EscrowError::NotOpen)));
}

#[test]
fn cancel_refunds_the_maker() {
    let mut c = Cancel { user: MAKER, offered_mint_decimals: 6, escrow: open_escrow() };
    let r = cancel(&mut c, 7).unwrap();
    let t = r.refund;
    assert_eq!(r.close.destination, MAKER);
    assert!(matches!(r.close.signer, EscrowSigner::Escrow { maker: MAKER, escrow_id: 7, bump: 250 }));
    assert_eq!(c.escrow.status, Status::Cancelled);
    assert_eq!(t.from, EscrowTokenAccount::EscrowOffered);
    assert_eq!(t.to, EscrowTokenAccount::MakerOffered);
    assert_eq!(t.amount, 500);
    assert!(matches!(cancel(&mut c, 7), Err(EscrowError::NotOpen)));
}

#[test]
fn expiry_only_after_the_deadline() {
    let mut x = Expired { user: MAKER, offered_mint_decimals: 6, escrow: open_escrow() };
    assert!(matches!(expired(&mut x, 7, 1_000), Err(EscrowError::NotExpired)));
    assert_eq!(x.escrow.status, Status::Open);
    let r = expired(&mut x, 7, 1_001).unwrap();
    assert_eq!(r.close.destination, MAKER);
    let t = r.refund;
    assert_eq!(x.escrow.status, Status::Expired);
    assert_eq!(t.amount, 500);
    assert_eq!(t.to, EscrowTokenAccount::MakerOffered);
    assert!(matches!(expired(&mut x, 7, 2_000), Err(EscrowError::NotOpen)));
}

#[test]
fn cancel_right_after_make_returns_the_deposit() {
    let (e, deposit) = make(&make_ctx(), 500, 80, 1_000, 7, 100).unwrap();
    let maker_before: u64 = 2_000;
    let maker_after_make = maker_before - deposit.amount;
    let mut c = Cancel { user: MAKER, offered_mint_decimals: 6, escrow: e };
    let r = cancel(&mut c, 7).unwrap();
    assert_eq!(deposit.from, r.refund.to);
    assert_eq!(deposit.to, r.refund.from);
    assert_eq!(maker_after_make + r.refund.amount, maker_before);
    assert_eq!(r.close.destination, MAKER);
}
