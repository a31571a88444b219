use vstd::prelude::*;

verus! {

/// Size in bytes of a record's storage slot, fixed at creation time:
/// discriminator, name, 8-byte balance, 32-byte owner identity.
pub const RECORD_SPACE: usize = 8 + 1 + 8 + 32;

/// Every way an operation of the protocol can be rejected. A rejected
/// operation leaves the ledger exactly as it was.
#[derive(Clone, Copy, Debug, PartialEq, Eq, Structural)]
pub enum BankError {
    /// The acting identity did not sign the call.
    AuthRequired,
    /// The call was signed, but not by the record's owner.
    Unauthorized,
    /// A record already exists at the derived address.
    AlreadyExists,
    /// The payer's external funds, or the reserve-adjusted backing funds,
    /// do not cover the requested amount.
    InsufficientFunds,
    /// No derivation proof exists for the owner (practically unreachable).
    DerivationExhausted,
}

/// The persisted per-owner ledger entry. `balance` tracks the amounts moved
/// in through deposits; the value physically held by the storage slot is
/// kept separately in [`BankAccount::backing_funds`].
#[derive(Clone, Debug, PartialEq, Eq)]
pub struct Bank {
    /// Display label, set once at creation and immutable afterward.
    pub name: String,
    /// Ledger-tracked amount: increased by every deposit. Withdrawal leaves
    /// it untouched, so it diverges from the backing funds afterward.
    pub balance: u64,
    /// Identity of the sole authorized withdrawer, set once at creation.
    pub owner: [u8; 32],
}

/// A record together with the raw value its storage slot holds. The slot
/// must keep at least the minimum reserve to stay allocated; the reserve is
/// a property of the slot's size and the environment, so it is handed to
/// each operation rather than stored.
#[derive(Clone, Debug, PartialEq, Eq)]
pub struct BankAccount {
    /// The persisted record.
    pub record: Bank,
    /// The value physically held by the record's storage slot, reserve
    /// included.
    pub backing_funds: u64,
}

impl BankAccount {
    /// The slot invariant: the backing funds cover the minimum reserve.
    /// Creation establishes it and every operation preserves it.
    pub open spec fn wf(self, reserve: u64) -> bool {
        self.backing_funds >= reserve
    }
}

/// The storage slot at a derived address: either never initialized, or
/// holding an account. A slot is created exactly once and never destroyed.
#[derive(Clone, Debug, PartialEq, Eq)]
pub enum Slot {
    Uninitialized,
    Active(BankAccount),
}

/// The caller of an operation, as the host environment presents it: an
/// identity, its external funds, and whether the host verified that this
/// identity signed the call.
#[derive(Clone, Copy, Debug, PartialEq, Eq)]
pub struct User {
    /// The caller's identity.
    pub key: [u8; 32],
    /// The caller's external funds.
    pub funds: u64,
    /// Whether the host's signature verification passed for this identity.
    pub signed: bool,
}

/// Accounts resolved for a create operation: the slot at the owner's derived
/// address, and the owner, who also pays for the allocation.
#[derive(Clone, Debug, PartialEq, Eq)]
pub struct Create {
    pub bank: Slot,
    pub user: User,
}

/// Accounts resolved for a deposit: an active account and the depositor,
/// who need not be the owner.
#[derive(Clone, Debug, PartialEq, Eq)]
pub struct Deposit {
    pub bank: BankAccount,
    pub user: User,
}

/// Accounts resolved for a withdrawal: an active account and the caller
/// asking to be paid out of it.
#[derive(Clone, Debug, PartialEq, Eq)]
pub struct Withdraw {
    pub bank: BankAccount,
    pub user: User,
}

/// Compares two identities byte by byte.
pub fn key_eq(a: &[u8; 32], b: &[u8; 32]) -> (r: bool)
    ensures
        r == (a@ == b@),
{
    let mut i: usize = 0;
    while i < 32
        invariant
            i <= 32,
            forall|j: int| 0 <= j < i ==> a@[j] == b@[j],
        decreases 32 - i,
    {
        if a[i] != b[i] {
            return false;
        }
        i += 1;
    }
    proof {
        assert(a@ =~= b@);
    }
    true
}

} // verus!
