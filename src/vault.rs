use vstd::prelude::*;
use crate::account::{
    AccountRef, Pubkey, VaultError, check_funds, move_lamports, require_signer, require_writable,
};

verus! {

/// The record a vault account stores: the identifier of its owner.
#[derive(Clone, Copy, Debug, PartialEq, Eq)]
pub struct Vault {
    pub owner: Pubkey,
}

/// A vault account: the ledger account itself and the record in its storage,
/// `None` while it has not been initialized.
#[derive(Clone, Copy, Debug, PartialEq, Eq)]
pub struct VaultAccount {
    pub info: AccountRef,
    pub state: Option<Vault>,
}

/// The accounts of an initialization: the vault to create and the signer
/// that becomes its owner and pays for its storage.
#[derive(Clone, Copy, Debug, PartialEq, Eq)]
pub struct InitializeVault {
    pub vault: VaultAccount,
    pub authority: AccountRef,
}

/// The accounts of a deposit: the paying signer and the receiving vault.
#[derive(Clone, Copy, Debug, PartialEq, Eq)]
pub struct Deposit {
    pub from: AccountRef,
    pub vault: VaultAccount,
}

/// The accounts of a withdrawal: the paying vault and the receiving signer.
#[derive(Clone, Copy, Debug, PartialEq, Eq)]
pub struct Withdraw {
    pub vault: VaultAccount,
    pub to: AccountRef,
}

/// One operation applied to a vault after its initialization, together with
/// the other account it involves.
#[derive(Clone, Copy, Debug, PartialEq, Eq)]
pub enum VaultOp {
    Deposit { from: AccountRef, amount: u64 },
    Withdraw { to: AccountRef, amount: u64 },
}

impl VaultAccount {
    /// The same vault account with its balance replaced.
    pub open spec fn with_lamports(self, lamports: u64) -> VaultAccount {
        VaultAccount { info: self.info.with_lamports(lamports), ..self }
    }
}

/// The error an initialization ends in, or `None` when it succeeds: the
/// vault must be writable, the authority a writable signer, and the vault
/// account must not hold a record yet.
pub open spec fn initialize_error(ctx: InitializeVault) -> Option<VaultError> {
    if !ctx.vault.info.is_writable {
        Some(VaultError::AccountNotMutable)
    } else if !ctx.authority.is_signer {
        Some(VaultError::AccountNotSigner)
    } else if !ctx.authority.is_writable {
        Some(VaultError::AccountNotMutable)
    } else if ctx.vault.state is Some {
        Some(VaultError::AccountAlreadyInitialized)
    } else {
        None
    }
}

/// The accounts after an initialization: the vault's record names the
/// authority as owner; nothing else changes, balances included.
pub open spec fn initialize_spec(ctx: InitializeVault) -> (InitializeVault, Result<(), VaultError>) {
    match initialize_error(ctx) {
        Some(e) => (ctx, Err(e)),
        None => (
            InitializeVault {
                vault: VaultAccount { state: Some(Vault { owner: ctx.authority.key }), ..ctx.vault },
                ..ctx
            },
            Ok(()),
        ),
    }
}

/// The error a deposit of `amount` ends in, or `None` when it succeeds: the
/// depositor must be a writable signer holding at least `amount`, the vault
/// writable, and the vault's new balance must fit.
pub open spec fn deposit_error(ctx: Deposit, amount: u64) -> Option<VaultError> {
    if !ctx.from.is_signer {
        Some(VaultError::AccountNotSigner)
    } else if !ctx.from.is_writable || !ctx.vault.info.is_writable {
        Some(VaultError::AccountNotMutable)
    } else if ctx.from.lamports < amount {
        Some(VaultError::InsufficientFunds)
    } else if ctx.vault.info.lamports + amount > u64::MAX {
        Some(VaultError::TransferFailed)
    } else {
        None
    }
}

/// The accounts after a deposit of `amount`: on success `amount` has moved
/// from the depositor to the vault; on failure nothing has changed.
pub open spec fn deposit_spec(ctx: Deposit, amount: u64) -> (Deposit, Result<(), VaultError>) {
    match deposit_error(ctx, amount) {
        Some(e) => (ctx, Err(e)),
        None => (
            Deposit {
                from: ctx.from.with_lamports((ctx.from.lamports - amount) as u64),
                vault: ctx.vault.with_lamports((ctx.vault.info.lamports + amount) as u64),
            },
            Ok(()),
        ),
    }
}

/// The error a withdrawal of `amount` ends in, or `None` when it succeeds:
/// the vault must be writable and hold at least `amount`, the recipient a
/// writable signer whose new balance fits.
pub open spec fn withdraw_error(ctx: Withdraw, amount: u64) -> Option<VaultError> {
    if !ctx.vault.info.is_writable {
        Some(VaultError::AccountNotMutable)
    } else if !ctx.to.is_signer {
        Some(VaultError::AccountNotSigner)
    } else if !ctx.to.is_writable {
        Some(VaultError::AccountNotMutable)
    } else if ctx.vault.info.lamports < amount {
        Some(VaultError::InsufficientFunds)
    } else if ctx.to.lamports + amount > u64::MAX {
        Some(VaultError::ArithmeticOverflow)
    } else {
        None
    }
}

/// The accounts after a withdrawal of `amount`: on success `amount` has
/// moved from the vault to the recipient; on failure nothing has changed.
pub open spec fn withdraw_spec(ctx: Withdraw, amount: u64) -> (Withdraw, Result<(), VaultError>) {
    match withdraw_error(ctx, amount) {
        Some(e) => (ctx, Err(e)),
        None => (
            Withdraw {
                vault: ctx.vault.with_lamports((ctx.vault.info.lamports - amount) as u64),
                to: ctx.to.with_lamports((ctx.to.lamports + amount) as u64),
            },
            Ok(()),
        ),
    }
}

/// The vault account after one operation.
pub open spec fn apply_op(vault: VaultAccount, op: VaultOp) -> VaultAccount {
    match op {
        VaultOp::Deposit { from, amount } => deposit_spec(Deposit { from, vault }, amount).0.vault,
        VaultOp::Withdraw { to, amount } => withdraw_spec(Withdraw { vault, to }, amount).0.vault,
    }
}

/// The vault account after a sequence of operations, in order.
pub open spec fn apply_ops(vault: VaultAccount, ops: Seq<VaultOp>) -> VaultAccount
    decreases ops.len(),
{
    if ops.len() == 0 {
        vault
    } else {
        apply_ops(apply_op(vault, ops[0]), ops.drop_first())
    }
}

/// Creates the vault's record and stamps it with the authority as owner.
/// The host's "create" semantics are kept: an account that already holds a
/// record is refused. No balance changes.
pub fn initialize_vault(ctx: &mut InitializeVault) -> (r: Result<(), VaultError>)
    ensures
        (*final(ctx), r) == initialize_spec(*old(ctx)),
{
    require_writable(&ctx.vault.info)?;
    require_signer(&ctx.authority)?;
    require_writable(&ctx.authority)?;
    if ctx.vault.state.is_some() {
        return Err(VaultError::AccountAlreadyInitialized);
    }
    ctx.vault.state = Some(Vault { owner: ctx.authority.key });
    Ok(())
}

/// Moves `amount` from the depositor to the vault. Deposits are open to any
/// signer: the vault's owner is not consulted.
pub fn deposit(ctx: &mut Deposit, amount: u64) -> (r: Result<(), VaultError>)
    ensures
        (*final(ctx), r) == deposit_spec(*old(ctx), amount),
{
    require_signer(&ctx.from)?;
    require_writable(&ctx.from)?;
    require_writable(&ctx.vault.info)?;
    check_funds(ctx.from.lamports, amount)?;
    if ctx.vault.info.lamports > u64::MAX - amount {
        return Err(VaultError::TransferFailed);
    }
    move_lamports(&mut ctx.from, &mut ctx.vault.info, amount);
    Ok(())
}

/// Moves `amount` from the vault to the recipient.
///
/// The recipient must sign, but it is not compared with the vault's owner,
/// and the vault's record is not read: any signer can withdraw from any
/// vault account it presents. This is the established behaviour of the
/// program and is kept as it is; a deployment that wants only the owner to
/// withdraw must add that check before calling.
pub fn withdraw(ctx: &mut Withdraw, amount: u64) -> (r: Result<(), VaultError>)
    ensures
        (*final(ctx), r) == withdraw_spec(*old(ctx), amount),
{
    require_writable(&ctx.vault.info)?;
    require_signer(&ctx.to)?;
    require_writable(&ctx.to)?;
    check_funds(ctx.vault.info.lamports, amount)?;
    if ctx.to.lamports > u64::MAX - amount {
        return Err(VaultError::ArithmeticOverflow);
    }
    move_lamports(&mut ctx.vault.info, &mut ctx.to, amount);
    Ok(())
}

} // verus!
