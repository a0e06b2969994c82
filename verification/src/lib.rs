//! A custodial token vault: one program-derived account holds tokens for a
//! single manager, takes deposits from anyone and releases funds to the
//! manager alone.
//!
//! The vault's address is derived from a fixed label and the program's own
//! identity ([`identity`]). A record at that address names the manager
//! ([`record`]). The three operations ([`operations`]) check the accounts
//! they are handed and, for a deposit or a withdrawal, order a transfer
//! ([`token`]); the host carries the order out, or `settle` does so on
//! in-memory accounts. [`laws`] states what holds of the operations taken
//! together.
pub mod address;
pub mod error;
pub mod identity;
pub mod record;
pub mod token;
pub mod operations;
pub mod laws;

pub use address::Address;
pub use error::VaultError;
pub use identity::{sign_as, AuthorizationToken, VaultIdentity, VAULT_LABEL};
pub use operations::{
    deposit_tokens, initialize_vault, settle, withdraw_tokens, Context, DepositTokens,
    InitializeVault, Signer, VaultEvent, WithdrawTokens,
};
pub use record::{VaultAccount, VaultData};
pub use token::{TokenAccount, Transfer};
