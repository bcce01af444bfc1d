//! A custodial vault: an account stamped with an owner that takes deposits
//! of native value units from signers and releases withdrawals to signers.
//!
//! Accounts are modelled as plain values (`AccountRef`): an identifier, a
//! balance, and the signer / writable capabilities that the host ledger
//! attaches to each reference in a transaction. Each operation validates those
//! capabilities first, then checks funds, then moves the balances; on any
//! failure every account is left exactly as it was.

mod account;
mod vault;
mod laws;

pub use account::{AccountRef, Pubkey, VaultError, check_funds, move_lamports, require_signer, require_writable};
pub use vault::{
    Deposit, InitializeVault, Vault, VaultAccount, VaultOp, Withdraw, deposit, initialize_vault, withdraw,
};
pub use laws::{
    law_balance_conservation, law_failure_idempotent, law_insufficient_funds_rejected,
    law_no_negative_balance, law_owner_immutable,
};
