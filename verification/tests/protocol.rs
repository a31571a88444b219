use bank_pda::engine::{create_account, deposit_token, withdraw_balance};
use bank_pda::record::{
    key_eq, Bank, BankAccount, BankError, Create, Deposit, Slot, User, RECORD_SPACE,
};

fn reserve() -> u64 {
    anchor_lang::prelude::Rent::default().minimum_balance(RECORD_SPACE)
}

/// Creates an account for `owner` funded from `funds`, returning the active
/// account and the owner's remaining external funds.
fn created(owner: [u8; 32], funds: u64, name: &str) -> (BankAccount, u64) {
    let mut ctx = Create {
        bank: Slot::Uninitialized,
        user: User {
            key: owner,
            funds,
            signed: true,
        },
    };
    let r = create_account(&mut ctx, name.to_string(), reserve());
    assert_eq!(r, Ok(()));
    match ctx.bank {
        Slot::Active(acct) => (acct, ctx.user.funds),
        Slot::Uninitialized => panic!("create left the slot uninitialized"),
    }
}

#[test]
fn create_initializes_record() {
    let owner = [7u8; 32];
    let (acct, left) = created(owner, 10_000_000, "savings");
    assert_eq!(acct.record.name, "savings");
    assert_eq!(acct.record.balance, 0);
    assert_eq!(acct.record.owner, owner);
    assert_eq!(acct.backing_funds, reserve());
    assert_eq!(left, 10_000_000 - reserve());
}

#[test]
fn create_unsigned_fails() {
    let mut ctx = Create {
        bank: Slot::Uninitialized,
        user: User {
            key: [7u8; 32],
            funds: 10_000_000,
            signed: false,
        },
    };
    let r = create_account(&mut ctx, "savings".to_string(), reserve());
    assert_eq!(r, Err(BankError::AuthRequired));
    assert_eq!(ctx.bank, Slot::Uninitialized);
    assert_eq!(ctx.user.funds, 10_000_000);
}

#[test]
fn create_underfunded_payer_fails() {
    let mut ctx = Create {
        bank: Slot::Uninitialized,
        user: User {
            key: [7u8; 32],
            funds: reserve() - 1,
            signed: true,
        },
    };
    let r = create_account(&mut ctx, "savings".to_string(), reserve());
    assert_eq!(r, Err(BankError::InsufficientFunds));
    assert_eq!(ctx.bank, Slot::Uninitialized);
    assert_eq!(ctx.user.funds, reserve() - 1);
}

#[test]
fn deposit_zero_is_noop() {
    let owner = [7u8; 32];
    let (acct, _) = created(owner, 10_000_000, "a");
    let mut ctx = Deposit {
        bank: acct,
        user: User {
            key: owner,
            funds: 500,
            signed: true,
        },
    };
    let r = deposit_token(&mut ctx, 0);
    assert_eq!(r, Ok(()));
    assert_eq!(ctx.bank.record.balance, 0);
    assert_eq!(ctx.bank.backing_funds, reserve());
    assert_eq!(ctx.user.funds, 500);
}

#[test]
fn deposits_accumulate() {
    let owner = [7u8; 32];
    let (acct, _) = created(owner, 10_000_000, "a");
    let mut ctx = Deposit {
        bank: acct,
        user: User {
            key: owner,
            funds: 500,
            signed: true,
        },
    };
    assert_eq!(deposit_token(&mut ctx, 100), Ok(()));
    assert_eq!(deposit_token(&mut ctx, 50), Ok(()));
    assert_eq!(ctx.bank.record.balance, 150);
    assert_eq!(ctx.bank.backing_funds, reserve() + 150);
    assert_eq!(ctx.user.funds, 350);
}

#[test]
fn deposit_by_non_owner_is_permitted() {
    let owner = [7u8; 32];
    let stranger = [9u8; 32];
    let (acct, _) = created(owner, 10_000_000, "a");
    let mut ctx = Deposit {
        bank: acct,
        user: User {
            key: stranger,
            funds: 500,
            signed: true,
        },
    };
    assert_eq!(deposit_token(&mut ctx, 200), Ok(()));
    assert_eq!(ctx.bank.record.balance, 200);
    assert_eq!(ctx.bank.backing_funds, reserve() + 200);
    assert_eq!(ctx.user.funds, 300);
}

#[test]
fn deposit_beyond_external_funds_fails() {
    let owner = [7u8; 32];
    let (acct, _) = created(owner, 10_000_000, "a");
    let mut ctx = Deposit {
        bank: acct,
        user: User {
            key: owner,
            funds: 99,
            signed: true,
        },
    };
    let r = deposit_token(&mut ctx, 100);
    assert_eq!(r, Err(BankError::InsufficientFunds));
    assert_eq!(ctx.bank.record.balance, 0);
    assert_eq!(ctx.bank.backing_funds, reserve());
    assert_eq!(ctx.user.funds, 99);
}

#[test]
fn withdraw_by_non_owner_is_unauthorized() {
    let owner = [7u8; 32];
    let stranger = [9u8; 32];
    let (mut acct, _) = created(owner, 10_000_000, "a");
    acct.backing_funds += 1_000;
    acct.record.balance += 1_000;
    for amount in [0u64, 1, 1_000] {
        let mut ctx = bank_pda::record::Withdraw {
            bank: acct.clone(),
            user: User {
                key: stranger,
                funds: 5,
                signed: true,
            },
        };
        let r = withdraw_balance(&mut ctx, amount, reserve());
        assert_eq!(r, Err(BankError::Unauthorized));
        assert_eq!(ctx.bank, acct);
        assert_eq!(ctx.user.funds, 5);
    }
}

#[test]
fn withdraw_beyond_reserve_margin_fails_atomically() {
    let owner = [7u8; 32];
    let (mut acct, _) = created(owner, 10_000_000, "a");
    acct.backing_funds += 1_000;
    acct.record.balance += 1_000;
    let mut ctx = bank_pda::record::Withdraw {
        bank: acct.clone(),
        user: User {
            key: owner,
            funds: 5,
            signed: true,
        },
    };
    let r = withdraw_balance(&mut ctx, 1_001, reserve());
    assert_eq!(r, Err(BankError::InsufficientFunds));
    assert_eq!(ctx.bank, acct);
    assert_eq!(ctx.user.funds, 5);
}

#[test]
fn withdraw_by_owner_moves_funds_and_keeps_balance() {
    let owner = [7u8; 32];
    let (mut acct, _) = created(owner, 10_000_000, "a");
    acct.backing_funds += 1_000;
    acct.record.balance += 1_000;
    let mut ctx = bank_pda::record::Withdraw {
        bank: acct,
        user: User {
            key: owner,
            funds: 5,
            signed: true,
        },
    };
    let r = withdraw_balance(&mut ctx, 400, reserve());
    assert_eq!(r, Ok(()));
    assert_eq!(ctx.user.funds, 405);
    assert_eq!(ctx.bank.backing_funds, reserve() + 600);
    // The ledger balance is deliberately left at its pre-withdrawal value:
    // the protocol does not decrement it on withdrawal, so it diverges from
    // the backing funds from here on.
    assert_eq!(ctx.bank.record.balance, 1_000);
}

#[test]
fn double_create_fails_and_preserves_record() {
    let owner = [7u8; 32];
    let (acct, left) = created(owner, 10_000_000, "first");
    let mut ctx = Create {
        bank: Slot::Active(acct.clone()),
        user: User {
            key: owner,
            funds: left,
            signed: true,
        },
    };
    let r = create_account(&mut ctx, "second".to_string(), reserve());
    assert_eq!(r, Err(BankError::AlreadyExists));
    match ctx.bank {
        Slot::Active(after) => {
            assert_eq!(after.record.name, "first");
            assert_eq!(after.record.balance, 0);
            assert_eq!(after.record.owner, owner);
            assert_eq!(after.backing_funds, acct.backing_funds);
        }
        Slot::Uninitialized => panic!("record vanished"),
    }
    assert_eq!(ctx.user.funds, left);
}

#[test]
fn repeated_deposit_withdraw_never_breaches_reserve() {
    let owner = [7u8; 32];
    let (acct, _) = created(owner, 10_000_000, "a");
    assert!(acct.backing_funds >= reserve());

    let mut dep = Deposit {
        bank: acct,
        user: User {
            key: owner,
            funds: 1_000,
            signed: true,
        },
    };
    assert_eq!(deposit_token(&mut dep, 1_000), Ok(()));
    assert!(dep.bank.backing_funds >= reserve());

    let mut wd = bank_pda::record::Withdraw {
        bank: dep.bank,
        user: User {
            key: owner,
            funds: 0,
            signed: true,
        },
    };
    assert_eq!(withdraw_balance(&mut wd, 1_000, reserve()), Ok(()));
    assert!(wd.bank.backing_funds >= reserve());
    assert_eq!(wd.bank.backing_funds, reserve());

    // Nothing was deposited again, so a second withdrawal of the same
    // amount must be rejected rather than eat into the reserve.
    let r = withdraw_balance(&mut wd, 1_000, reserve());
    assert_eq!(r, Err(BankError::InsufficientFunds));
    assert!(wd.bank.backing_funds >= reserve());
    assert_eq!(wd.user.funds, 1_000);
}

#[test]
fn key_eq_compares_identities() {
    let a = [7u8; 32];
    let mut b = [7u8; 32];
    assert!(key_eq(&a, &b));
    b[31] = 8;
    assert!(!key_eq(&a, &b));
}

#[test]
fn record_space_matches_layout() {
    let _ = Bank {
        name: String::new(),
        balance: 0,
        owner: [0u8; 32],
    };
    assert_eq!(RECORD_SPACE, 49);
}
