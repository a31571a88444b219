use vstd::prelude::*;

use crate::engine::{create_post, deposit_post, withdraw_post};
use crate::record::{BankError, Create, Deposit, Slot, Withdraw};

verus! {

/// Law: a freshly created account holds a zero balance, the caller as
/// owner, the given name, and exactly the minimum reserve as backing funds.
pub proof fn lemma_create_initializes(
    pre: Create,
    name: String,
    reserve: u64,
    post: Create,
    r: Result<(), BankError>,
)
    requires
        create_post(pre, name, reserve, post, r),
        r is Ok,
    ensures
        post.bank matches Slot::Active(acct) && {
            &&& acct.record.balance == 0
            &&& acct.record.owner == pre.user.key
            &&& acct.record.name == name
            &&& acct.backing_funds == reserve
            &&& acct.wf(reserve)
        },
        post.user.funds == pre.user.funds - reserve,
{
}

/// Law: a zero-amount deposit always succeeds and is a no-op — the ledger
/// balance, the backing funds and the depositor's external funds all stay
/// exactly as they were.
pub proof fn lemma_deposit_zero_noop(pre: Deposit, post: Deposit, r: Result<(), BankError>)
    requires
        deposit_post(pre, 0, post, r),
    ensures
        r is Ok,
        post.bank.record.balance == pre.bank.record.balance,
        post.bank.backing_funds == pre.bank.backing_funds,
        post.user.funds == pre.user.funds,
{
}

/// Law: consecutive successful deposits accumulate — after depositing `a`
/// and then `b`, the ledger balance and the backing funds have each grown by
/// exactly `a + b`.
pub proof fn lemma_deposits_accumulate(
    s0: Deposit,
    a: u64,
    s1: Deposit,
    b: u64,
    s2: Deposit,
)
    requires
        deposit_post(s0, a, s1, Ok(())),
        deposit_post(s1, b, s2, Ok(())),
    ensures
        s2.bank.record.balance == s0.bank.record.balance + a + b,
        s2.bank.backing_funds == s0.bank.backing_funds + a + b,
{
}

/// Law: a withdrawal by anyone but the owner fails as unauthorized and
/// changes nothing, whatever the amount — zero included.
pub proof fn lemma_withdraw_non_owner_rejected(
    pre: Withdraw,
    amount: u64,
    reserve: u64,
    post: Withdraw,
    r: Result<(), BankError>,
)
    requires
        withdraw_post(pre, amount, reserve, post, r),
        pre.user.key@ != pre.bank.record.owner@,
    ensures
        r == Err::<(), BankError>(BankError::Unauthorized),
        post == pre,
{
}

/// Law: a withdrawal the reserve-adjusted backing funds cannot cover fails
/// for insufficient funds, and both the backing funds and the caller's
/// external funds are left untouched — rejection is atomic.
pub proof fn lemma_withdraw_insufficient_rejected(
    pre: Withdraw,
    amount: u64,
    reserve: u64,
    post: Withdraw,
    r: Result<(), BankError>,
)
    requires
        withdraw_post(pre, amount, reserve, post, r),
        pre.user.key@ == pre.bank.record.owner@,
        pre.bank.backing_funds - reserve < amount,
    ensures
        r == Err::<(), BankError>(BankError::InsufficientFunds),
        post == pre,
{
}

/// Law: a withdrawal by the owner within the reserve-adjusted backing funds
/// succeeds: the owner's external funds grow by exactly the amount, the
/// backing funds shrink by exactly the amount, and the record — its ledger
/// `balance` included — is unchanged, the protocol's literal behavior.
pub proof fn lemma_withdraw_owner_succeeds(
    pre: Withdraw,
    amount: u64,
    reserve: u64,
    post: Withdraw,
    r: Result<(), BankError>,
)
    requires
        withdraw_post(pre, amount, reserve, post, r),
        pre.user.key@ == pre.bank.record.owner@,
        amount <= pre.bank.backing_funds - reserve,
    ensures
        r is Ok,
        post.user.funds == pre.user.funds + amount,
        post.bank.backing_funds == pre.bank.backing_funds - amount,
        post.bank.record == pre.bank.record,
{
}

/// Law: creating twice cannot happen. A create on a slot that is already
/// active fails with `AlreadyExists` and alters neither the existing record
/// nor the caller's funds.
pub proof fn lemma_double_create_rejected(
    c0: Create,
    name0: String,
    reserve0: u64,
    c1: Create,
    name1: String,
    reserve1: u64,
    c2: Create,
    r1: Result<(), BankError>,
)
    requires
        create_post(c0, name0, reserve0, c1, Ok(())),
        create_post(c1, name1, reserve1, c2, r1),
    ensures
        r1 == Err::<(), BankError>(BankError::AlreadyExists),
        c2 == c1,
{
}

/// Law: the minimum reserve is never breached. If the backing funds cover
/// the reserve before a deposit or a withdrawal, they still cover it
/// afterward, whether the operation succeeded or was rejected; creation
/// establishes that cover to begin with.
pub proof fn lemma_reserve_never_breached(
    d0: Deposit,
    d_amount: u64,
    d1: Deposit,
    dr: Result<(), BankError>,
    w0: Withdraw,
    w_amount: u64,
    w1: Withdraw,
    wr: Result<(), BankError>,
    reserve: u64,
)
    requires
        deposit_post(d0, d_amount, d1, dr),
        d0.bank.wf(reserve),
        withdraw_post(w0, w_amount, reserve, w1, wr),
        w0.bank.wf(reserve),
    ensures
        d1.bank.wf(reserve),
        w1.bank.wf(reserve),
{
}

} // verus!
