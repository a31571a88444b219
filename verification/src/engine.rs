use vstd::prelude::*;

use crate::record::{Bank, BankAccount, BankError, Create, Deposit, Slot, Withdraw, key_eq};

verus! {

/// What creating an account does. Gates, in order: the slot must be
/// uninitialized, the owner must have signed, and the payer must cover the
/// minimum reserve. Once all pass, the slot becomes active with a zero
/// balance, the caller as owner, and exactly the reserve as backing funds,
/// paid out of the caller's external funds.
pub open spec fn create_post(
    pre: Create,
    name: String,
    reserve: u64,
    post: Create,
    r: Result<(), BankError>,
) -> bool {
    if pre.bank is Active {
        r == Err::<(), BankError>(BankError::AlreadyExists) && post == pre
    } else if !pre.user.signed {
        r == Err::<(), BankError>(BankError::AuthRequired) && post == pre
    } else if pre.user.funds < reserve {
        r == Err::<(), BankError>(BankError::InsufficientFunds) && post == pre
    } else {
        &&& r is Ok
        &&& post.bank == Slot::Active(
            BankAccount {
                record: Bank { name: name, balance: 0u64, owner: pre.user.key },
                backing_funds: reserve,
            },
        )
        &&& post.user.key == pre.user.key
        &&& post.user.signed == pre.user.signed
        &&& post.user.funds == pre.user.funds - reserve
    }
}

/// What a deposit does. Anyone may deposit, owner or not. If the depositor's
/// external funds cover the amount, the amount moves into the slot's backing
/// funds and the ledger balance rises by the same amount, as one atomic unit;
/// otherwise nothing changes and the deposit is rejected for insufficient
/// funds. A zero amount always succeeds and changes nothing.
pub open spec fn deposit_post(
    pre: Deposit,
    amount: u64,
    post: Deposit,
    r: Result<(), BankError>,
) -> bool {
    if pre.user.funds >= amount {
        &&& r is Ok
        &&& post.bank.record.name == pre.bank.record.name
        &&& post.bank.record.owner == pre.bank.record.owner
        &&& post.bank.record.balance == pre.bank.record.balance + amount
        &&& post.bank.backing_funds == pre.bank.backing_funds + amount
        &&& post.user.key == pre.user.key
        &&& post.user.signed == pre.user.signed
        &&& post.user.funds == pre.user.funds - amount
    } else {
        r == Err::<(), BankError>(BankError::InsufficientFunds) && post == pre
    }
}

/// What a withdrawal does. Gates, in this exact order: the caller must be
/// the owner, else `Unauthorized`; the backing funds above the minimum
/// reserve must cover the amount, else `InsufficientFunds`. Once both pass,
/// the amount leaves the backing funds and lands in the owner's external
/// funds, two inverse adjustments that net to zero. The ledger `balance`
/// field is deliberately not decremented: withdrawal mirrors the protocol's
/// observable behavior, in which `balance` diverges from the backing funds
/// after any successful withdrawal.
pub open spec fn withdraw_post(
    pre: Withdraw,
    amount: u64,
    reserve: u64,
    post: Withdraw,
    r: Result<(), BankError>,
) -> bool {
    if pre.user.key@ != pre.bank.record.owner@ {
        r == Err::<(), BankError>(BankError::Unauthorized) && post == pre
    } else if pre.bank.backing_funds - reserve < amount {
        r == Err::<(), BankError>(BankError::InsufficientFunds) && post == pre
    } else {
        &&& r is Ok
        &&& post.bank.record == pre.bank.record
        &&& post.bank.backing_funds == pre.bank.backing_funds - amount
        &&& post.user.key == pre.user.key
        &&& post.user.signed == pre.user.signed
        &&& post.user.funds == pre.user.funds + amount
    }
}

/// Creates the one record a caller may own: initializes the name, a zero
/// balance and the caller as owner, funding the new slot with the minimum
/// reserve from the caller's external funds.
pub fn create_account(ctx: &mut Create, name: String, reserve: u64) -> (r: Result<(), BankError>)
    ensures
        create_post(*old(ctx), name, reserve, *final(ctx), r),
{
    match &ctx.bank {
        Slot::Active(_) => {
            return Err(BankError::AlreadyExists);
        },
        Slot::Uninitialized => {},
    }
    if !ctx.user.signed {
        return Err(BankError::AuthRequired);
    }
    if ctx.user.funds < reserve {
        return Err(BankError::InsufficientFunds);
    }
    ctx.user.funds = ctx.user.funds - reserve;
    ctx.bank = Slot::Active(
        BankAccount {
            record: Bank { name: name, balance: 0, owner: ctx.user.key },
            backing_funds: reserve,
        },
    );
    Ok(())
}

/// Moves `amount` from the depositor's external funds into the account's
/// backing funds and raises the ledger balance to match. The host has
/// already verified the depositor's signature; the two overflow bounds are
/// machine limits on the 64-bit registers.
pub fn deposit_token(ctx: &mut Deposit, amount: u64) -> (r: Result<(), BankError>)
    requires
        old(ctx).user.signed,
        old(ctx).user.funds >= amount ==> {
            &&& old(ctx).bank.backing_funds + amount <= u64::MAX
            &&& old(ctx).bank.record.balance + amount <= u64::MAX
        },
    ensures
        deposit_post(*old(ctx), amount, *final(ctx), r),
{
    if ctx.user.funds < amount {
        return Err(BankError::InsufficientFunds);
    }
    ctx.user.funds = ctx.user.funds - amount;
    ctx.bank.backing_funds = ctx.bank.backing_funds + amount;
    ctx.bank.record.balance = ctx.bank.record.balance + amount;
    Ok(())
}

/// Pays `amount` out of the account's backing funds to the caller, provided
/// the caller is the owner and the slot keeps its minimum reserve. The
/// reserve is recomputed live by the host from the slot's size and handed
/// in. The caller's signature is host-verified, the slot invariant holds on
/// entry, and the overflow bound is a machine limit on the caller's 64-bit
/// funds register.
pub fn withdraw_balance(ctx: &mut Withdraw, amount: u64, reserve: u64) -> (r: Result<
    (),
    BankError,
>)
    requires
        old(ctx).user.signed,
        old(ctx).bank.wf(reserve),
        (old(ctx).user.key@ == old(ctx).bank.record.owner@ && old(ctx).bank.backing_funds - reserve
            >= amount) ==> old(ctx).user.funds + amount <= u64::MAX,
    ensures
        withdraw_post(*old(ctx), amount, reserve, *final(ctx), r),
        final(ctx).bank.wf(reserve),
{
    if !key_eq(&ctx.user.key, &ctx.bank.record.owner) {
        return Err(BankError::Unauthorized);
    }
    if ctx.bank.backing_funds - reserve < amount {
        return Err(BankError::InsufficientFunds);
    }
    ctx.bank.backing_funds = ctx.bank.backing_funds - amount;
    ctx.user.funds = ctx.user.funds + amount;
    Ok(())
}

} // verus!
