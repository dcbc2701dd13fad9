//! A token swap escrow.
//!
//! A maker deposits `amount` tokens of one mint and asks `cost` tokens of
//! another in return. Until the deadline any other user may take the offer;
//! the maker may cancel it while it is open, and once the deadline has passed
//! anyone may return the deposit to the maker. Each of these settles the
//! escrow for good.
use vstd::prelude::*;

use vstd::bytes::{spec_u32_to_le_bytes, u32_to_le_bytes};

use crate::keys::{Key, keys_equal, key_bytes};

verus! {

/// The life cycle of an escrow.
#[derive(Clone, Copy, PartialEq, Eq, Structural, Debug)]
pub enum Status {
    Open,
    Completed,
    Cancelled,
    Expired,
}

/// The escrow account.
#[derive(Clone, Copy)]
pub struct Escrow {
    pub authority: Key,
    pub amount: u64,
    pub cost: u64,
    pub escrow_id: u32,
    pub status: Status,
    pub deadline: i64,
    pub offered_mint: Key,
    pub wanted_mint: Key,
    pub version: u8,
    pub bump: u8,
}

/// The program's errors.
#[derive(Clone, Copy, PartialEq, Eq, Structural, Debug)]
pub enum EscrowError {
    InvalidAmount,
    InvalidCost,
    InvalidId,
    InvalidDeadline,
    Expired,
    NotOpen,
    MakerCannotTake,
    SameMint,
    NotExpired,
}

/// The token accounts between which the program moves tokens.
#[derive(Clone, Copy, PartialEq, Eq, Structural, Debug)]
pub enum EscrowTokenAccount {
    /// The maker's account of the offered mint.
    MakerOffered,
    /// The escrow's account of the offered mint.
    EscrowOffered,
    /// The buyer's account of the offered mint.
    BuyerOffered,
    /// The buyer's account of the wanted mint.
    BuyerWanted,
    /// The maker's account of the wanted mint.
    MakerWanted,
}

/// Who signs a transfer.
#[derive(Clone, Copy)]
pub enum EscrowSigner {
    /// The maker signs the transaction.
    Maker,
    /// The buyer signs the transaction.
    Buyer,
    /// The escrow signs as the address derived from `"escrow"`, the maker's
    /// key, the little-endian escrow id and the bump.
    Escrow { maker: Key, escrow_id: u32, bump: u8 },
}

/// A checked token transfer for the token program to carry out.
#[derive(Clone, Copy)]
pub struct EscrowTransfer {
    pub from: EscrowTokenAccount,
    pub to: EscrowTokenAccount,
    pub amount: u64,
    pub decimals: u8,
    pub signer: EscrowSigner,
}

/// Closing the escrow's token account of the offered mint: its rent goes to
/// `destination`, and the escrow signs.
#[derive(Clone, Copy)]
pub struct EscrowAtaClose {
    pub destination: Key,
    pub signer: EscrowSigner,
}

/// What a successful `take` carries out, in order: the buyer pays the
/// maker, the escrow delivers the deposit to the buyer, and the escrow's
/// token account is closed.
#[derive(Clone, Copy)]
pub struct TakeSettlement {
    pub payment: EscrowTransfer,
    pub delivery: EscrowTransfer,
    pub close: EscrowAtaClose,
}

/// What a successful `cancel` or `expired` carries out, in order: the escrow
/// returns the deposit to the maker, and its token account is closed.
#[derive(Clone, Copy)]
pub struct EscrowRefund {
    pub refund: EscrowTransfer,
    pub close: EscrowAtaClose,
}

/// The accounts of `make` that the logic reads.
pub struct Make {
    pub user: Key,
    pub offered_mint: Key,
    pub offered_mint_decimals: u8,
    pub wanted_mint: Key,
    pub escrow_bump: u8,
}

/// The accounts of `take` that the logic reads and writes.
pub struct Take {
    pub buyer: Key,
    pub user: Key,
    pub offered_mint_decimals: u8,
    pub wanted_mint_decimals: u8,
    pub escrow: Escrow,
}

/// The accounts of `cancel` that the logic reads and writes.
pub struct Cancel {
    pub user: Key,
    pub offered_mint_decimals: u8,
    pub escrow: Escrow,
}

/// The accounts of `expired` that the logic reads and writes.
pub struct Expired {
    pub user: Key,
    pub offered_mint_decimals: u8,
    pub escrow: Escrow,
}

// ---------------------------------------------------------------------------
// What each instruction decides
// ---------------------------------------------------------------------------

/// The error of `make`, if any.
pub open spec fn make_check(ctx: Make, amount: u64, cost: u64, deadline: i64, now: i64) -> Option<EscrowError> {
    if amount == 0 {
        Some(EscrowError::InvalidAmount)
    } else if cost == 0 {
        Some(EscrowError::InvalidCost)
    } else if deadline <= now {
        Some(EscrowError::InvalidDeadline)
    } else if ctx.offered_mint@ == ctx.wanted_mint@ {
        Some(EscrowError::SameMint)
    } else {
        None
    }
}

/// The escrow that a successful `make` writes.
pub open spec fn made_escrow(ctx: Make, amount: u64, cost: u64, deadline: i64, escrow_id: u32) -> Escrow {
    Escrow {
        authority: ctx.user,
        amount,
        cost,
        escrow_id,
        status: Status::Open,
        deadline,
        offered_mint: ctx.offered_mint,
        wanted_mint: ctx.wanted_mint,
        version: 0,
        bump: ctx.escrow_bump,
    }
}

/// The error of `take` by `buyer` at `now`, if any.
pub open spec fn take_check(e: Escrow, buyer: Key, now: i64) -> Option<EscrowError> {
    if e.deadline < now {
        Some(EscrowError::Expired)
    } else if e.status != Status::Open {
        Some(EscrowError::NotOpen)
    } else if buyer@ == e.authority@ {
        Some(EscrowError::MakerCannotTake)
    } else {
        None
    }
}

/// The error of `cancel`, if any.
pub open spec fn cancel_check(e: Escrow) -> Option<EscrowError> {
    if e.status != Status::Open {
        Some(EscrowError::NotOpen)
    } else {
        None
    }
}

/// The error of `expired` at `now`, if any.
pub open spec fn expired_check(e: Escrow, now: i64) -> Option<EscrowError> {
    if e.deadline >= now {
        Some(EscrowError::NotExpired)
    } else if e.status != Status::Open {
        Some(EscrowError::NotOpen)
    } else {
        None
    }
}

/// The escrow signing for the maker's escrow `escrow_id`.
pub open spec fn escrow_signer(maker: Key, escrow_id: u32, bump: u8) -> EscrowSigner {
    EscrowSigner::Escrow { maker, escrow_id, bump }
}

/// The maker's deposit into the escrow made by `make`.
pub open spec fn deposit_transfer(ctx: Make, amount: u64) -> EscrowTransfer {
    EscrowTransfer {
        from: EscrowTokenAccount::MakerOffered,
        to: EscrowTokenAccount::EscrowOffered,
        amount,
        decimals: ctx.offered_mint_decimals,
        signer: EscrowSigner::Maker,
    }
}

/// The buyer's payment to the maker in `take`.
pub open spec fn payment_transfer(e: Escrow, wanted_decimals: u8) -> EscrowTransfer {
    EscrowTransfer {
        from: EscrowTokenAccount::BuyerWanted,
        to: EscrowTokenAccount::MakerWanted,
        amount: e.cost,
        decimals: wanted_decimals,
        signer: EscrowSigner::Buyer,
    }
}

/// The escrow's delivery of the deposit to the buyer in `take`.
pub open spec fn delivery_transfer(e: Escrow, maker: Key, offered_decimals: u8, escrow_id: u32) -> EscrowTransfer {
    EscrowTransfer {
        from: EscrowTokenAccount::EscrowOffered,
        to: EscrowTokenAccount::BuyerOffered,
        amount: e.amount,
        decimals: offered_decimals,
        signer: escrow_signer(maker, escrow_id, e.bump),
    }
}

/// The return of the deposit to the maker in `cancel` and `expired`.
pub open spec fn refund_transfer(e: Escrow, maker: Key, offered_decimals: u8, escrow_id: u32) -> EscrowTransfer {
    EscrowTransfer {
        from: EscrowTokenAccount::EscrowOffered,
        to: EscrowTokenAccount::MakerOffered,
        amount: e.amount,
        decimals: offered_decimals,
        signer: escrow_signer(maker, escrow_id, e.bump),
    }
}

/// Closing the escrow's token account to the maker, signed by the escrow.
pub open spec fn ata_close(e: Escrow, maker: Key, escrow_id: u32) -> EscrowAtaClose {
    EscrowAtaClose { destination: maker, signer: escrow_signer(maker, escrow_id, e.bump) }
}

/// The ASCII bytes of `"escrow"`.
pub open spec fn escrow_seed_bytes() -> Seq<u8> {
    seq![101u8, 115u8, 99u8, 114u8, 111u8, 119u8]
}

/// The seeds with which the escrow signs: `["escrow", maker, the
/// little-endian escrow id, [bump]]`, the seeds its address is derived from.
pub fn escrow_signer_seeds(maker: &Key, escrow_id: u32, bump: u8) -> (seeds: Vec<Vec<u8>>)
    ensures
        seeds@.len() == 4,
        seeds@[0]@ == escrow_seed_bytes(),
        seeds@[1]@ == maker@,
        seeds@[2]@ == spec_u32_to_le_bytes(escrow_id),
        seeds@[3]@ == seq![bump],
{
    let mut seeds: Vec<Vec<u8>> = Vec::new();
    let tag: Vec<u8> = vec![101u8, 115u8, 99u8, 114u8, 111u8, 119u8];
    seeds.push(tag);
    seeds.push(key_bytes(maker));
    seeds.push(u32_to_le_bytes(escrow_id));
    let last: Vec<u8> = vec![bump];
    seeds.push(last);
    seeds
}

// ---------------------------------------------------------------------------
// The instructions
// ---------------------------------------------------------------------------

/// Opens an escrow at time `now`: checks the amount, the cost, the deadline
/// and that the two mints differ, then returns the new escrow and the
/// transfer of `amount` offered tokens from the maker into the escrow.
pub fn make(ctx: &Make, amount: u64, cost: u64, deadline: i64, escrow_id: u32, now: i64) -> (res: Result<
    (Escrow, EscrowTransfer),
    EscrowError,
>)
    ensures
        match make_check(*ctx, amount, cost, deadline, now) {
            Some(err) => res == Err::<(Escrow, EscrowTransfer), EscrowError>(err),
            None => res == Ok::<(Escrow, EscrowTransfer), EscrowError>(
                (made_escrow(*ctx, amount, cost, deadline, escrow_id), deposit_transfer(*ctx, amount)),
            ),
        },
{
    if amount == 0 {
        return Err(EscrowError::InvalidAmount);
    }
    if cost == 0 {
        return Err(EscrowError::InvalidCost);
    }
    if deadline <= now {
        return Err(EscrowError::InvalidDeadline);
    }
    if keys_equal(&ctx.offered_mint, &ctx.wanted_mint) {
        return Err(EscrowError::SameMint);
    }
    let escrow = Escrow {
        authority: ctx.user,
        amount,
        cost,
        escrow_id,
        status: Status::Open,
        deadline,
        offered_mint: ctx.offered_mint,
        wanted_mint: ctx.wanted_mint,
        version: 0,
        bump: ctx.escrow_bump,
    };
    let transfer = EscrowTransfer {
        from: EscrowTokenAccount::MakerOffered,
        to: EscrowTokenAccount::EscrowOffered,
        amount,
        decimals: ctx.offered_mint_decimals,
        signer: EscrowSigner::Maker,
    };
    Ok((escrow, transfer))
}

/// The refund and close that `cancel` and `expired` carry out.
fn refund_plan(maker: &Key, e: &Escrow, offered_decimals: u8, escrow_id: u32) -> (r: EscrowRefund)
    ensures
        r.refund == refund_transfer(*e, *maker, offered_decimals, escrow_id),
        r.close == ata_close(*e, *maker, escrow_id),
{
    EscrowRefund {
        refund: EscrowTransfer {
            from: EscrowTokenAccount::EscrowOffered,
            to: EscrowTokenAccount::MakerOffered,
            amount: e.amount,
            decimals: offered_decimals,
            signer: EscrowSigner::Escrow { maker: *maker, escrow_id, bump: e.bump },
        },
        close: EscrowAtaClose {
            destination: *maker,
            signer: EscrowSigner::Escrow { maker: *maker, escrow_id, bump: e.bump },
        },
    }
}

/// Takes an open offer at time `now`, no later than its deadline and by
/// someone other than the maker: the buyer pays `cost` wanted tokens to the
/// maker, the escrow delivers its `amount` offered tokens to the buyer and
/// its token account is closed to the maker, and the escrow becomes
/// `Completed`. On an error nothing changes.
pub fn take(ctx: &mut Take, escrow_id: u32, now: i64) -> (res: Result<TakeSettlement, EscrowError>)
    ensures
        final(ctx).buyer == old(ctx).buyer,
        final(ctx).user == old(ctx).user,
        final(ctx).offered_mint_decimals == old(ctx).offered_mint_decimals,
        final(ctx).wanted_mint_decimals == old(ctx).wanted_mint_decimals,
        match take_check(old(ctx).escrow, old(ctx).buyer, now) {
            Some(err) => {
                &&& res == Err::<TakeSettlement, EscrowError>(err)
                &&& final(ctx).escrow == old(ctx).escrow
            },
            None => {
                &&& res matches Ok(s)
                &&& final(ctx).escrow == Escrow { status: Status::Completed, ..old(ctx).escrow }
                &&& s.payment == payment_transfer(old(ctx).escrow, old(ctx).wanted_mint_decimals)
                &&& s.delivery == delivery_transfer(
                    old(ctx).escrow,
                    old(ctx).user,
                    old(ctx).offered_mint_decimals,
                    escrow_id,
                )
                &&& s.close == ata_close(old(ctx).escrow, old(ctx).user, escrow_id)
            },
        },
{
    if ctx.escrow.deadline < now {
        return Err(EscrowError::Expired);
    }
    if ctx.escrow.status != Status::Open {
        return Err(EscrowError::NotOpen);
    }
    if keys_equal(&ctx.buyer, &ctx.escrow.authority) {
        return Err(EscrowError::MakerCannotTake);
    }
    let payment = EscrowTransfer {
        from: EscrowTokenAccount::BuyerWanted,
        to: EscrowTokenAccount::MakerWanted,
        amount: ctx.escrow.cost,
        decimals: ctx.wanted_mint_decimals,
        signer: EscrowSigner::Buyer,
    };
    let delivery = EscrowTransfer {
        from: EscrowTokenAccount::EscrowOffered,
        to: EscrowTokenAccount::BuyerOffered,
        amount: ctx.escrow.amount,
        decimals: ctx.offered_mint_decimals,
        signer: EscrowSigner::Escrow { maker: ctx.user, escrow_id, bump: ctx.escrow.bump },
    };
    let close = EscrowAtaClose {
        destination: ctx.user,
        signer: EscrowSigner::Escrow { maker: ctx.user, escrow_id, bump: ctx.escrow.bump },
    };
    ctx.escrow.status = Status::Completed;
    Ok(TakeSettlement { payment, delivery, close })
}

/// Cancels an open escrow: returns the deposit to the maker, closes the
/// escrow's token account to the maker and marks the escrow `Cancelled`.
/// On an error nothing changes.
pub fn cancel(ctx: &mut Cancel, escrow_id: u32) -> (res: Result<EscrowRefund, EscrowError>)
    ensures
        final(ctx).user == old(ctx).user,
        final(ctx).offered_mint_decimals == old(ctx).offered_mint_decimals,
        match cancel_check(old(ctx).escrow) {
            Some(err) => {
                &&& res == Err::<EscrowRefund, EscrowError>(err)
                &&& final(ctx).escrow == old(ctx).escrow
            },
            None => {
                &&& res matches Ok(r)
                &&& final(ctx).escrow == Escrow { status: Status::Cancelled, ..old(ctx).escrow }
                &&& r.refund == refund_transfer(old(ctx).escrow, old(ctx).user, old(ctx).offered_mint_decimals, escrow_id)
                &&& r.close == ata_close(old(ctx).escrow, old(ctx).user, escrow_id)
            },
        },
{
    if ctx.escrow.status != Status::Open {
        return Err(EscrowError::NotOpen);
    }
    let plan = refund_plan(&ctx.user, &ctx.escrow, ctx.offered_mint_decimals, escrow_id);
    ctx.escrow.status = Status::Cancelled;
    Ok(plan)
}

/// Returns the deposit of an open escrow whose deadline has passed at `now`
/// to the maker, closes the escrow's token account to the maker and marks the
/// escrow `Expired`. On an error nothing changes.
pub fn expired(ctx: &mut Expired, escrow_id: u32, now: i64) -> (res: Result<EscrowRefund, EscrowError>)
    ensures
        final(ctx).user == old(ctx).user,
        final(ctx).offered_mint_decimals == old(ctx).offered_mint_decimals,
        match expired_check(old(ctx).escrow, now) {
            Some(err) => {
                &&& res == Err::<EscrowRefund, EscrowError>(err)
                &&& final(ctx).escrow == old(ctx).escrow
            },
            None => {
                &&& res matches Ok(r)
                &&& final(ctx).escrow == Escrow { status: Status::Expired, ..old(ctx).escrow }
                &&& r.refund == refund_transfer(old(ctx).escrow, old(ctx).user, old(ctx).offered_mint_decimals, escrow_id)
                &&& r.close == ata_close(old(ctx).escrow, old(ctx).user, escrow_id)
            },
        },
{
    if ctx.escrow.deadline >= now {
        return Err(EscrowError::NotExpired);
    }
    if ctx.escrow.status != Status::Open {
        return Err(EscrowError::NotOpen);
    }
    let plan = refund_plan(&ctx.user, &ctx.escrow, ctx.offered_mint_decimals, escrow_id);
    ctx.escrow.status = Status::Expired;
    Ok(plan)
}

// ---------------------------------------------------------------------------
// Laws
// ---------------------------------------------------------------------------

/// An escrow that has been taken, cancelled or expired accepts no further
/// instruction: `cancel` refuses it as not open, and `take` and `expired`
/// refuse it as not open or on their deadline check, whatever the time.
pub proof fn settled_escrow_accepts_nothing(e: Escrow, buyer: Key, now: i64)
    requires
        e.status != Status::Open,
    ensures
        take_check(e, buyer, now) is Some,
        cancel_check(e) == Some(EscrowError::NotOpen),
        expired_check(e, now) is Some,
        take_check(e, buyer, now) != Some(EscrowError::MakerCannotTake),
{
}

/// At any moment at most one of `take` and `expired` can succeed on an
/// escrow: taking needs `now <= deadline`, expiring needs `now > deadline`.
pub proof fn take_and_expiry_exclude_each_other(e: Escrow, buyer: Key, now: i64)
    ensures
        !(take_check(e, buyer, now) is None && expired_check(e, now) is None),
        take_check(e, buyer, now) is None ==> now <= e.deadline,
        expired_check(e, now) is None ==> now > e.deadline,
{
}

/// An open escrow settles one way or another: before or at its deadline any
/// buyer other than the maker can take it, after its deadline it can be
/// expired, and the maker can always cancel it.
pub proof fn open_escrow_can_always_be_settled(e: Escrow, buyer: Key, now: i64)
    requires
        e.status == Status::Open,
    ensures
        cancel_check(e) is None,
        now > e.deadline ==> expired_check(e, now) is None,
        now <= e.deadline && buyer@ != e.authority@ ==> take_check(e, buyer, now) is None,
{
}

/// A freshly made escrow is open, and it cannot be expired at the moment it
/// was made.
pub proof fn fresh_escrow_is_open_and_not_expired(
    ctx: Make,
    amount: u64,
    cost: u64,
    deadline: i64,
    escrow_id: u32,
    now: i64,
)
    requires
        make_check(ctx, amount, cost, deadline, now) is None,
    ensures
        made_escrow(ctx, amount, cost, deadline, escrow_id).status == Status::Open,
        expired_check(made_escrow(ctx, amount, cost, deadline, escrow_id), now)
            == Some(EscrowError::NotExpired),
{
}

/// How a list of transfers changes the balance of one token account.
pub open spec fn net_change(ts: Seq<EscrowTransfer>, account: EscrowTokenAccount) -> int
    decreases ts.len(),
{
    if ts.len() == 0 {
        0
    } else {
        let t = ts.last();
        let here = if t.to == account && t.from != account {
            t.amount as int
        } else if t.from == account && t.to != account {
            -(t.amount as int)
        } else {
            0
        };
        net_change(ts.drop_last(), account) + here
    }
}

/// Cancelling an escrow right after making it undoes the making: the
/// escrow is open so `cancel` accepts it, the refund moves back exactly what
/// the deposit moved, so neither the maker's token account nor the escrow's
/// changes in total, and the escrow's token account is closed to the maker.
pub proof fn cancel_undoes_make(ctx: Make, amount: u64, cost: u64, deadline: i64, escrow_id: u32, now: i64)
    requires
        make_check(ctx, amount, cost, deadline, now) is None,
    ensures
        ({
            let e = made_escrow(ctx, amount, cost, deadline, escrow_id);
            let moves = seq![
                deposit_transfer(ctx, amount),
                refund_transfer(e, ctx.user, ctx.offered_mint_decimals, escrow_id),
            ];
            &&& cancel_check(e) is None
            &&& net_change(moves, EscrowTokenAccount::MakerOffered) == 0
            &&& net_change(moves, EscrowTokenAccount::EscrowOffered) == 0
            &&& ata_close(e, ctx.user, escrow_id).destination == ctx.user
        }),
{
    let e = made_escrow(ctx, amount, cost, deadline, escrow_id);
    let d = deposit_transfer(ctx, amount);
    let r = refund_transfer(e, ctx.user, ctx.offered_mint_decimals, escrow_id);
    let moves = seq![d, r];
    assert(moves.drop_last() =~= seq![d]);
    assert(seq![d].drop_last() =~= Seq::<EscrowTransfer>::empty());
    reveal_with_fuel(net_change, 3);
}

/// `make` accepts every offer with a positive amount, a positive cost, a
/// deadline after now and two different mints, whatever the cost is
/// relative to the amount; it refuses every other offer.
pub proof fn make_accepts_exactly_valid_offers(ctx: Make, amount: u64, cost: u64, deadline: i64, now: i64)
    ensures
        make_check(ctx, amount, cost, deadline, now) is None <==> (amount > 0 && cost > 0 && deadline > now
            && ctx.offered_mint@ != ctx.wanted_mint@),
{
}

/// `take` succeeds exactly on an open escrow, no later than its deadline,
/// taken by someone other than the maker; the buyer then pays the escrow's
/// `cost` in the wanted mint to the maker and receives its `amount` in the
/// offered mint from the escrow, whose token account is closed to the maker.
pub proof fn take_swaps_cost_for_amount(e: Escrow, buyer: Key, maker: Key, now: i64, od: u8, wd: u8, id: u32)
    ensures
        take_check(e, buyer, now) is None <==> (now <= e.deadline && e.status == Status::Open && buyer@
            != e.authority@),
        payment_transfer(e, wd).amount == e.cost,
        payment_transfer(e, wd).from == EscrowTokenAccount::BuyerWanted,
        payment_transfer(e, wd).to == EscrowTokenAccount::MakerWanted,
        delivery_transfer(e, maker, od, id).amount == e.amount,
        delivery_transfer(e, maker, od, id).from == EscrowTokenAccount::EscrowOffered,
        delivery_transfer(e, maker, od, id).to == EscrowTokenAccount::BuyerOffered,
        ata_close(e, maker, id).destination == maker,
{
}

/// `cancel` succeeds exactly on an open escrow, `expired` exactly on an open
/// escrow past its deadline; both return the escrow's whole `amount` from its
/// token account to the maker's, signed by the escrow.
pub proof fn refunds_return_the_whole_deposit(e: Escrow, maker: Key, now: i64, od: u8, id: u32)
    ensures
        cancel_check(e) is None <==> e.status == Status::Open,
        expired_check(e, now) is None <==> (now > e.deadline && e.status == Status::Open),
        refund_transfer(e, maker, od, id).amount == e.amount,
        refund_transfer(e, maker, od, id).from == EscrowTokenAccount::EscrowOffered,
        refund_transfer(e, maker, od, id).to == EscrowTokenAccount::MakerOffered,
        refund_transfer(e, maker, od, id).signer == (EscrowSigner::Escrow { maker, escrow_id: id, bump: e.bump }),
{
}

/// A made escrow is open and records the maker, the amount and cost asked,
/// the deadline, the id and the two mints; the maker deposits exactly
/// `amount` offered tokens into it.
pub proof fn make_records_the_offer(ctx: Make, amount: u64, cost: u64, deadline: i64, escrow_id: u32)
    ensures
        ({
            let e = made_escrow(ctx, amount, cost, deadline, escrow_id);
            &&& e.status == Status::Open
            &&& e.authority == ctx.user
            &&& e.amount == amount
            &&& e.cost == cost
            &&& e.deadline == deadline
            &&& e.escrow_id == escrow_id
            &&& e.offered_mint == ctx.offered_mint
            &&& e.wanted_mint == ctx.wanted_mint
            &&& e.bump == ctx.escrow_bump
        }),
        deposit_transfer(ctx, amount).amount == amount,
        deposit_transfer(ctx, amount).from == EscrowTokenAccount::MakerOffered,
        deposit_transfer(ctx, amount).to == EscrowTokenAccount::EscrowOffered,
{
}

} // verus!
