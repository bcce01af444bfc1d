use vstd::prelude::*;
use crate::account::VaultError;
use crate::vault::{
    Deposit, InitializeVault, Vault, VaultAccount, VaultOp, Withdraw, apply_op, apply_ops,
    deposit_spec, initialize_spec, withdraw_spec,
};

verus! {

/// A deposit or a withdrawal neither creates nor destroys value: the two
/// balances it involves add up to the same total before and after, whether
/// it succeeds or not.
pub proof fn law_balance_conservation(d: Deposit, w: Withdraw, amount: u64)
    ensures
        d.from.lamports + d.vault.info.lamports == deposit_spec(d, amount).0.from.lamports
            + deposit_spec(d, amount).0.vault.info.lamports,
        w.vault.info.lamports + w.to.lamports == withdraw_spec(w, amount).0.vault.info.lamports
            + withdraw_spec(w, amount).0.to.lamports,
{
}

/// No operation drives a balance below zero: a transfer succeeds only when
/// the paying balance covers the amount, and the paying balance afterwards is
/// the exact, non-negative difference.
pub proof fn law_no_negative_balance(d: Deposit, w: Withdraw, amount: u64)
    ensures
        deposit_spec(d, amount).1 is Ok ==> amount <= d.from.lamports
            && deposit_spec(d, amount).0.from.lamports == d.from.lamports - amount
            && deposit_spec(d, amount).0.from.lamports >= 0,
        withdraw_spec(w, amount).1 is Ok ==> amount <= w.vault.info.lamports
            && withdraw_spec(w, amount).0.vault.info.lamports == w.vault.info.lamports - amount
            && withdraw_spec(w, amount).0.vault.info.lamports >= 0,
{
}

/// An amount above the paying balance is refused and leaves every account
/// as it was; once the accounts' signer and writable capabilities are in
/// order, the refusal is `InsufficientFunds`.
pub proof fn law_insufficient_funds_rejected(d: Deposit, w: Withdraw, amount: u64)
    ensures
        amount > d.from.lamports ==> deposit_spec(d, amount).0 == d && deposit_spec(d, amount).1 is Err,
        amount > d.from.lamports && d.from.is_signer && d.from.is_writable && d.vault.info.is_writable
            ==> deposit_spec(d, amount).1 == Err::<(), VaultError>(VaultError::InsufficientFunds),
        amount > w.vault.info.lamports ==> withdraw_spec(w, amount).0 == w && withdraw_spec(w, amount).1 is Err,
        amount > w.vault.info.lamports && w.vault.info.is_writable && w.to.is_signer && w.to.is_writable
            ==> withdraw_spec(w, amount).1 == Err::<(), VaultError>(VaultError::InsufficientFunds),
{
}

proof fn lemma_ops_keep_record(vault: VaultAccount, ops: Seq<VaultOp>)
    ensures
        apply_ops(vault, ops).state == vault.state,
    decreases ops.len(),
{
    if ops.len() > 0 {
        let next = apply_op(vault, ops[0]);
        assert(next.state == vault.state);
        lemma_ops_keep_record(next, ops.drop_first());
    }
}

/// Once a vault has been initialized with an authority, no sequence of
/// deposits and withdrawals changes the owner its record names.
pub proof fn law_owner_immutable(init: InitializeVault, ops: Seq<VaultOp>)
    requires
        initialize_spec(init).1 is Ok,
    ensures
        initialize_spec(init).0.vault.state == Some(Vault { owner: init.authority.key }),
        apply_ops(initialize_spec(init).0.vault, ops).state == Some(Vault { owner: init.authority.key }),
{
    lemma_ops_keep_record(initialize_spec(init).0.vault, ops);
}

/// A deposit or a withdrawal of more than the paying balance, repeated, fails
/// the same way each time and never changes the accounts.
pub proof fn law_failure_idempotent(d: Deposit, w: Withdraw, amount: u64)
    ensures
        amount > d.from.lamports ==> deposit_spec(d, amount).0 == d
            && deposit_spec(d, amount).1 is Err
            && deposit_spec(deposit_spec(d, amount).0, amount) == deposit_spec(d, amount),
        amount > w.vault.info.lamports ==> withdraw_spec(w, amount).0 == w
            && withdraw_spec(w, amount).1 is Err
            && withdraw_spec(withdraw_spec(w, amount).0, amount) == withdraw_spec(w, amount),
{
}

} // verus!
