use vstd::prelude::*;

verus! {

/// A 32-byte account identifier, as the host ledger hands it out.
#[derive(Clone, Copy, Debug, PartialEq, Eq)]
pub struct Pubkey {
    pub bytes: [u8; 32],
}

/// A reference to a ledger account, as presented to one operation: its
/// identifier, its balance in native value units, and whether the
/// transaction proves it a signer and marks it writable.
#[derive(Clone, Copy, Debug, PartialEq, Eq)]
pub struct AccountRef {
    pub key: Pubkey,
    pub lamports: u64,
    pub is_signer: bool,
    pub is_writable: bool,
}

/// Why an operation was refused. A refused operation mutates nothing.
#[derive(Clone, Copy, Debug, PartialEq, Eq, Structural)]
pub enum VaultError {
    /// An account that must sign the transaction did not.
    AccountNotSigner,
    /// An account whose balance or data the operation changes is not writable.
    AccountNotMutable,
    /// The vault account already holds a record.
    AccountAlreadyInitialized,
    /// The paying account's balance is below the requested amount.
    InsufficientFunds,
    /// The native transfer of a deposit failed: the receiving balance would overflow.
    TransferFailed,
    /// A withdrawal would push the recipient's balance past the largest `u64`.
    ArithmeticOverflow,
}

impl AccountRef {
    /// The same account with its balance replaced.
    pub open spec fn with_lamports(self, lamports: u64) -> AccountRef {
        AccountRef { lamports, ..self }
    }
}

/// Whether `amount` can leave an account holding `source` and arrive at
/// one holding `dest` without either balance leaving the range of `u64`.
pub open spec fn transfer_fits(source: u64, dest: u64, amount: u64) -> bool {
    amount <= source && dest + amount <= u64::MAX
}

/// Refuses an account that is not a signer of the transaction.
pub fn require_signer(account: &AccountRef) -> (r: Result<(), VaultError>)
    ensures
        r == (if account.is_signer { Ok(()) } else { Err::<(), VaultError>(VaultError::AccountNotSigner) }),
{
    if account.is_signer {
        Ok(())
    } else {
        Err(VaultError::AccountNotSigner)
    }
}

/// Refuses an account that the transaction does not mark writable.
pub fn require_writable(account: &AccountRef) -> (r: Result<(), VaultError>)
    ensures
        r == (if account.is_writable { Ok(()) } else { Err::<(), VaultError>(VaultError::AccountNotMutable) }),
{
    if account.is_writable {
        Ok(())
    } else {
        Err(VaultError::AccountNotMutable)
    }
}

/// The sufficiency check that both transfers make before touching a balance:
/// `amount` may leave an account holding `balance` exactly when it is at most
/// `balance`.
pub fn check_funds(balance: u64, amount: u64) -> (r: Result<(), VaultError>)
    ensures
        r == (if amount <= balance { Ok(()) } else { Err::<(), VaultError>(VaultError::InsufficientFunds) }),
{
    if balance < amount {
        Err(VaultError::InsufficientFunds)
    } else {
        Ok(())
    }
}

/// Moves `amount` from `source` to `dest`, in place; nothing else of either
/// account changes, and the sum of the two balances is kept.
pub fn move_lamports(source: &mut AccountRef, dest: &mut AccountRef, amount: u64)
    requires
        transfer_fits(old(source).lamports, old(dest).lamports, amount),
    ensures
        *final(source) == old(source).with_lamports((old(source).lamports - amount) as u64),
        *final(dest) == old(dest).with_lamports((old(dest).lamports + amount) as u64),
{
    source.lamports = source.lamports - amount;
    dest.lamports = dest.lamports + amount;
}

} // verus!
