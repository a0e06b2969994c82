//! What holds of the vault's operations taken together.
use vstd::prelude::*;
use crate::address::Address;
use crate::error::VaultError;
use crate::identity::{vault_identity, VaultIdentity};
use crate::operations::{
    deposit_step, initialize_step, settled, withdraw_step, DepositTokens, InitializeVault,
    VaultEvent, WithdrawTokens,
};
use crate::token::{transfer_outcome, TokenAccount, Transfer};

verus! {

/// Initialization goes through exactly when the manager signed and the slot
/// is the empty one at the vault address. A read of the record afterwards
/// then yields that manager.
pub proof fn initialize_records_manager(accounts: InitializeVault, vault: Option<VaultIdentity>)
    ensures
        initialize_step(accounts, vault).1 is Ok <==> {
            &&& accounts.manager.is_signer
            &&& accounts.vault_data.data is None
            &&& vault matches Some(identity) && accounts.vault_data.key == identity.address
        },
        initialize_step(accounts, vault).1 is Ok ==> initialize_step(
            accounts,
            vault,
        ).0.vault_data.manager() == Some(accounts.manager.key),
{
}

/// A vault that has a manager keeps it: whoever calls initialization again,
/// signed or not, is refused, and every account stays as it was.
pub proof fn initialize_keeps_manager(accounts: InitializeVault, vault: Option<VaultIdentity>)
    requires
        accounts.vault_data.data is Some,
    ensures
        initialize_step(accounts, vault).1 is Err,
        initialize_step(accounts, vault).0 == accounts,
{
}

/// The vault's identity depends on the program's identity alone: deriving it
/// again for the same program gives the same address and the same bump.
pub proof fn derivation_is_deterministic(first: Address, second: Address)
    requires
        first == second,
    ensures
        vault_identity(first) == vault_identity(second),
{
}

/// A deposit from an account the depositor does not own, or between accounts
/// of different mints, is a `ValidationError`, whatever the amount.
pub proof fn deposit_rejects_mismatch(
    accounts: DepositTokens,
    amount: u64,
    vault: Option<VaultIdentity>,
)
    requires
        accounts.user_token_account.mint != accounts.vault_token_account.mint
            || accounts.user_token_account.owner != accounts.user.key,
    ensures
        deposit_step(accounts, amount, vault) matches Err(VaultError::ValidationError),
{
}

/// Conservation. Take a signed deposit from the depositor's own account into
/// the vault's account of the same mint, with the vault's record in place;
/// the two balances, being part of one supply, fit a `u64` together. The
/// deposit goes through exactly when the amount does not exceed the source
/// balance. The source then holds `amount` less and the vault's account
/// `amount` more, and nothing else about them changes; otherwise both stay as
/// they were.
pub proof fn deposit_conserves(accounts: DepositTokens, amount: u64, vault: VaultIdentity)
    requires
        accounts.user.is_signer,
        accounts.user_token_account.owner == accounts.user.key,
        accounts.user_token_account.mint == accounts.vault_token_account.mint,
        accounts.vault_token_account.owner == vault.address,
        accounts.vault_data.key == vault.address,
        accounts.vault_data.data is Some,
        accounts.user_token_account.amount + accounts.vault_token_account.amount <= u64::MAX,
    ensures
        ({
            let (result, source, destination) = settled(
                deposit_step(accounts, amount, Some(vault)),
                accounts.user_token_account,
                accounts.vault_token_account,
            );
            &&& result is Ok <==> amount <= accounts.user_token_account.amount
            &&& result is Ok ==> {
                &&& result == Ok::<VaultEvent, VaultError>(VaultEvent::Deposited { amount })
                &&& source == (TokenAccount {
                    amount: (accounts.user_token_account.amount - amount) as u64,
                    ..accounts.user_token_account
                })
                &&& destination == (TokenAccount {
                    amount: (accounts.vault_token_account.amount + amount) as u64,
                    ..accounts.vault_token_account
                })
                &&& source.amount + destination.amount == accounts.user_token_account.amount
                    + accounts.vault_token_account.amount
            }
            &&& result is Err ==> {
                &&& result == Err::<VaultEvent, VaultError>(VaultError::InsufficientBalance)
                &&& source == accounts.user_token_account
                &&& destination == accounts.vault_token_account
            }
        }),
{
}

/// Only the recorded manager withdraws. A withdrawal goes through only for a
/// signer whom the record names; for any other caller it is an
/// `AuthorizationError`, and no balance changes.
pub proof fn withdraw_needs_manager(
    accounts: WithdrawTokens,
    amount: u64,
    vault: Option<VaultIdentity>,
)
    ensures
        withdraw_step(accounts, amount, vault) is Ok ==> accounts.manager.is_signer
            && accounts.vault_data.manager() == Some(accounts.manager.key),
        accounts.vault_data.manager() != Some(accounts.manager.key) ==> settled(
            withdraw_step(accounts, amount, vault),
            accounts.vault_token_account,
            accounts.destination_token_account,
        ) == (
            Err::<VaultEvent, VaultError>(VaultError::AuthorizationError),
            accounts.vault_token_account,
            accounts.destination_token_account,
        ),
{
}

/// A withdrawal by the recorded manager, with the record and the vault's
/// token account in place and an account of the same mint to receive, whose
/// balance fits a `u64` together with the vault's, goes through exactly when
/// the amount does not exceed the vault's balance. The vault's account then
/// holds `amount` less and the receiving account `amount` more; otherwise
/// both stay as they were.
pub proof fn withdraw_conserves(accounts: WithdrawTokens, amount: u64, vault: VaultIdentity)
    requires
        accounts.manager.is_signer,
        accounts.vault_data.manager() == Some(accounts.manager.key),
        accounts.vault_data.key == vault.address,
        accounts.vault_token_account.owner == vault.address,
        accounts.vault_token_account.mint == accounts.destination_token_account.mint,
        accounts.vault_token_account.amount + accounts.destination_token_account.amount
            <= u64::MAX,
    ensures
        ({
            let (result, source, destination) = settled(
                withdraw_step(accounts, amount, Some(vault)),
                accounts.vault_token_account,
                accounts.destination_token_account,
            );
            &&& result is Ok <==> amount <= accounts.vault_token_account.amount
            &&& result is Ok ==> {
                &&& result == Ok::<VaultEvent, VaultError>(VaultEvent::Withdrawn { amount })
                &&& source == (TokenAccount {
                    amount: (accounts.vault_token_account.amount - amount) as u64,
                    ..accounts.vault_token_account
                })
                &&& destination == (TokenAccount {
                    amount: (accounts.destination_token_account.amount + amount) as u64,
                    ..accounts.destination_token_account
                })
            }
            &&& result is Err ==> {
                &&& result == Err::<VaultEvent, VaultError>(VaultError::InsufficientBalance)
                &&& source == accounts.vault_token_account
                &&& destination == accounts.destination_token_account
            }
        }),
{
}

/// Nothing is applied in part. An initialization that is refused leaves its
/// accounts as they were, and so does a deposit or a withdrawal that is
/// refused or whose transfer fails: balances change only together with
/// success.
pub proof fn refusal_changes_nothing(
    accounts: InitializeVault,
    vault: Option<VaultIdentity>,
    step: Result<(Transfer, VaultEvent), VaultError>,
    source: TokenAccount,
    destination: TokenAccount,
)
    ensures
        initialize_step(accounts, vault).1 is Err ==> initialize_step(accounts, vault).0
            == accounts,
        settled(step, source, destination).0 is Err ==> settled(step, source, destination).1
            == source && settled(step, source, destination).2 == destination,
        settled(step, source, destination).0 is Ok ==> step is Ok,
{
}

/// A transfer that goes through keeps the sum of the two balances, and
/// changes nothing of either account but its balance.
pub proof fn transfer_conserves(order: Transfer, source: TokenAccount, destination: TokenAccount)
    requires
        transfer_outcome(order, source, destination) is Ok,
    ensures
        ({
            let (s, d) = transfer_outcome(order, source, destination)->Ok_0;
            &&& s.amount + d.amount == source.amount + destination.amount
            &&& s.amount == source.amount - order.amount
            &&& s == (TokenAccount { amount: s.amount, ..source })
            &&& d == (TokenAccount { amount: d.amount, ..destination })
        }),
{
}

} // verus!
