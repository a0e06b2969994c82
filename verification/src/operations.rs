//! The three operations on a vault: initialize, deposit, withdraw. Each one
//! checks the accounts it is handed before anything changes, and a refused
//! call changes nothing.
//!
//! Every operation comes twice. The method on the accounts takes the vault's
//! identity as an argument and decides; the function on a [`Context`] derives
//! that identity from the program's own and hands it on.
use vstd::prelude::*;
use crate::address::Address;
use crate::error::VaultError;
use crate::identity::{sign_as, vault_identity, AuthorizationToken, VaultIdentity, VAULT_LABEL};
use crate::record::{VaultAccount, VaultData};
use crate::token::{transfer_outcome, TokenAccount, Transfer};

verus! {

/// An identity together with whether it signed the call.
#[derive(Clone, Copy, Debug, PartialEq, Eq)]
pub struct Signer {
    pub key: Address,
    pub is_signer: bool,
}

/// What an operation is called with: the program's own identity and the
/// accounts the operation touches.
#[derive(Debug, PartialEq, Eq)]
pub struct Context<T> {
    pub program_id: Address,
    pub accounts: T,
}

/// What an operation reports once it has gone through.
#[derive(Clone, Copy, Debug, PartialEq, Eq)]
pub enum VaultEvent {
    /// The vault was created with this manager.
    Initialized { manager: Address },
    /// A deposit of this amount was accepted.
    Deposited { amount: u64 },
    /// A withdrawal of this amount was accepted.
    Withdrawn { amount: u64 },
}

/// The accounts of `initialize_vault`.
#[derive(Clone, Copy, Debug, PartialEq, Eq)]
pub struct InitializeVault {
    /// The slot of the record; it must lie at the vault address.
    pub vault_data: VaultAccount,
    /// The identity to record as manager.
    pub manager: Signer,
}

/// The accounts of `deposit_tokens`.
#[derive(Clone, Copy, Debug, PartialEq, Eq)]
pub struct DepositTokens {
    /// The depositor.
    pub user: Signer,
    /// The account the tokens leave; the depositor must own it.
    pub user_token_account: TokenAccount,
    /// The vault's token account, which the tokens enter; the vault address
    /// must own it.
    pub vault_token_account: TokenAccount,
    /// The vault's record, at the vault address.
    pub vault_data: VaultAccount,
}

/// The accounts of `withdraw_tokens`.
#[derive(Clone, Copy, Debug, PartialEq, Eq)]
pub struct WithdrawTokens {
    /// The caller, who must be the recorded manager.
    pub manager: Signer,
    /// The vault's token account, which the tokens leave; the vault address
    /// must own it.
    pub vault_token_account: TokenAccount,
    /// The account the tokens enter.
    pub destination_token_account: TokenAccount,
    /// The vault's record, at the vault address.
    pub vault_data: VaultAccount,
}

/// What initialization does to its accounts and what it returns, for the
/// vault identity `vault` (`None` where the program has none).
///
/// The call is refused with `AuthorizationError` where the manager did not
/// sign, else with `AlreadyInitialized` where the slot holds a record, else
/// with `DerivationError` where there is no vault identity, else with
/// `ValidationError` where the slot is not at the vault address. Otherwise
/// the slot receives a record naming the manager.
pub open spec fn initialize_step(accounts: InitializeVault, vault: Option<VaultIdentity>) -> (
    InitializeVault,
    Result<VaultEvent, VaultError>,
) {
    if !accounts.manager.is_signer {
        (accounts, Err(VaultError::AuthorizationError))
    } else if accounts.vault_data.data is Some {
        (accounts, Err(VaultError::AlreadyInitialized))
    } else if vault is None {
        (accounts, Err(VaultError::DerivationError))
    } else if accounts.vault_data.key != vault->0.address {
        (accounts, Err(VaultError::ValidationError))
    } else {
        (
            InitializeVault {
                vault_data: VaultAccount {
                    key: accounts.vault_data.key,
                    data: Some(VaultData { manager: accounts.manager.key }),
                },
                manager: accounts.manager,
            },
            Ok(VaultEvent::Initialized { manager: accounts.manager.key }),
        )
    }
}

/// What a deposit of `amount` returns, for the vault identity `vault`.
///
/// The call is refused with `ValidationError` where the depositor did not
/// sign, does not own the source account, or the two token accounts hold
/// different mints; else with `DerivationError` where there is no vault
/// identity; else with `ValidationError` where the record is not the
/// initialized one at the vault address, or the vault address does not own
/// the receiving account. Otherwise the depositor's own transfer of `amount`
/// into the vault's account is ordered.
pub open spec fn deposit_step(
    accounts: DepositTokens,
    amount: u64,
    vault: Option<VaultIdentity>,
) -> Result<(Transfer, VaultEvent), VaultError> {
    if !accounts.user.is_signer || accounts.user_token_account.owner != accounts.user.key
        || accounts.user_token_account.mint != accounts.vault_token_account.mint {
        Err(VaultError::ValidationError)
    } else if vault is None {
        Err(VaultError::DerivationError)
    } else if accounts.vault_data.key != vault->0.address || accounts.vault_data.data is None
        || accounts.vault_token_account.owner != vault->0.address {
        Err(VaultError::ValidationError)
    } else {
        Ok(
            (
                Transfer {
                    from: accounts.user_token_account.key,
                    to: accounts.vault_token_account.key,
                    authority: accounts.user.key,
                    amount,
                    signer: None,
                },
                VaultEvent::Deposited { amount },
            ),
        )
    }
}

/// What a withdrawal of `amount` returns, for the vault identity `vault`.
///
/// The call is refused with `AuthorizationError` where the caller did not
/// sign or is not the manager the record names; else with `DerivationError`
/// where there is no vault identity; else with `AuthorizationError` where the
/// record is not at the vault address or the vault address does not own the
/// account to draw from. Otherwise a transfer of `amount` out of the vault's
/// account is ordered, with the vault address as authority and a fresh
/// authorization made from the identity's bump.
pub open spec fn withdraw_step(
    accounts: WithdrawTokens,
    amount: u64,
    vault: Option<VaultIdentity>,
) -> Result<(Transfer, VaultEvent), VaultError> {
    if !accounts.manager.is_signer || accounts.vault_data.manager() != Some(accounts.manager.key) {
        Err(VaultError::AuthorizationError)
    } else if vault is None {
        Err(VaultError::DerivationError)
    } else if accounts.vault_data.key != vault->0.address
        || accounts.vault_token_account.owner != vault->0.address {
        Err(VaultError::AuthorizationError)
    } else {
        Ok(
            (
                Transfer {
                    from: accounts.vault_token_account.key,
                    to: accounts.destination_token_account.key,
                    authority: vault->0.address,
                    amount,
                    signer: Some(AuthorizationToken { label: VAULT_LABEL, bump: vault->0.bump }),
                },
                VaultEvent::Withdrawn { amount },
            ),
        )
    }
}

impl InitializeVault {
    /// Create the record and set its manager, for the vault identity `vault`.
    /// A refused call leaves the accounts as they were.
    pub fn initialize(&mut self, vault: Option<VaultIdentity>) -> (r: Result<VaultEvent, VaultError>)
        ensures
            (*final(self), r) == initialize_step(*old(self), vault),
    {
        if !self.manager.is_signer {
            return Err(VaultError::AuthorizationError);
        }
        if self.vault_data.is_initialized() {
            return Err(VaultError::AlreadyInitialized);
        }
        match vault {
            None => Err(VaultError::DerivationError),
            Some(identity) => {
                if self.vault_data.key != identity.address {
                    return Err(VaultError::ValidationError);
                }
                let manager = self.manager.key;
                self.vault_data.data = Some(VaultData { manager });
                Ok(VaultEvent::Initialized { manager })
            },
        }
    }
}

impl DepositTokens {
    /// Check a deposit of `amount` and order its transfer, for the vault
    /// identity `vault`.
    pub fn deposit(&self, amount: u64, vault: Option<VaultIdentity>) -> (r: Result<
        (Transfer, VaultEvent),
        VaultError,
    >)
        ensures
            r == deposit_step(*self, amount, vault),
    {
        if !self.user.is_signer || self.user_token_account.owner != self.user.key
            || self.user_token_account.mint != self.vault_token_account.mint {
            return Err(VaultError::ValidationError);
        }
        match vault {
            None => Err(VaultError::DerivationError),
            Some(identity) => {
                if self.vault_data.key != identity.address || !self.vault_data.is_initialized()
                    || self.vault_token_account.owner != identity.address {
                    return Err(VaultError::ValidationError);
                }
                Ok(
                    (
                        Transfer {
                            from: self.user_token_account.key,
                            to: self.vault_token_account.key,
                            authority: self.user.key,
                            amount,
                            signer: None,
                        },
                        VaultEvent::Deposited { amount },
                    ),
                )
            },
        }
    }
}

impl WithdrawTokens {
    /// Check a withdrawal of `amount` and order its transfer, for the vault
    /// identity `vault`.
    pub fn withdraw(&self, amount: u64, vault: Option<VaultIdentity>) -> (r: Result<
        (Transfer, VaultEvent),
        VaultError,
    >)
        ensures
            r == withdraw_step(*self, amount, vault),
    {
        if !self.manager.is_signer {
            return Err(VaultError::AuthorizationError);
        }
        match self.vault_data.manager() {
            None => {
                return Err(VaultError::AuthorizationError);
            },
            Some(manager) => {
                if manager != self.manager.key {
                    return Err(VaultError::AuthorizationError);
                }
            },
        }
        match vault {
            None => Err(VaultError::DerivationError),
            Some(identity) => {
                if self.vault_data.key != identity.address || self.vault_token_account.owner
                    != identity.address {
                    return Err(VaultError::AuthorizationError);
                }
                Ok(
                    (
                        Transfer {
                            from: self.vault_token_account.key,
                            to: self.destination_token_account.key,
                            authority: identity.address,
                            amount,
                            signer: Some(sign_as(identity.bump)),
                        },
                        VaultEvent::Withdrawn { amount },
                    ),
                )
            },
        }
    }
}

/// Create the vault's record and set its manager. The slot must be the empty
/// one at the address derived for the program. A vault that has a manager
/// keeps it: a second call is refused and the record stays as it was.
pub fn initialize_vault(ctx: &mut Context<InitializeVault>) -> (r: Result<VaultEvent, VaultError>)
    ensures
        final(ctx).program_id == old(ctx).program_id,
        (final(ctx).accounts, r) == initialize_step(
            old(ctx).accounts,
            vault_identity(old(ctx).program_id),
        ),
{
    let vault = crate::identity::derive(&ctx.program_id).ok();
    ctx.accounts.initialize(vault)
}

/// Check a deposit and order the transfer that carries it out: `amount` from
/// the depositor's account into the vault's, authorized by the depositor. No
/// account and no record is changed here, and zero is an amount like any
/// other.
pub fn deposit_tokens(ctx: &Context<DepositTokens>, amount: u64) -> (r: Result<
    (Transfer, VaultEvent),
    VaultError,
>)
    ensures
        r == deposit_step(ctx.accounts, amount, vault_identity(ctx.program_id)),
{
    let vault = crate::identity::derive(&ctx.program_id).ok();
    ctx.accounts.deposit(amount, vault)
}

/// Check a withdrawal and order the transfer that carries it out. The
/// manager's signature authorizes the call; the vault address, derived anew
/// here, authorizes the movement of funds.
pub fn withdraw_tokens(ctx: &Context<WithdrawTokens>, amount: u64) -> (r: Result<
    (Transfer, VaultEvent),
    VaultError,
>)
    ensures
        r == withdraw_step(ctx.accounts, amount, vault_identity(ctx.program_id)),
{
    let vault = crate::identity::derive(&ctx.program_id).ok();
    ctx.accounts.withdraw(amount, vault)
}

/// What `settle` gives: an accepted operation's order carried out on
/// `source` and `destination`, or the refusal with both accounts untouched.
pub open spec fn settled(
    step: Result<(Transfer, VaultEvent), VaultError>,
    source: TokenAccount,
    destination: TokenAccount,
) -> (Result<VaultEvent, VaultError>, TokenAccount, TokenAccount) {
    match step {
        Err(e) => (Err(e), source, destination),
        Ok((order, event)) => match transfer_outcome(order, source, destination) {
            Err(e) => (Err(e), source, destination),
            Ok((s, d)) => (Ok(event), s, d),
        },
    }
}

/// Carry out what a deposit or a withdrawal ordered. A refused operation
/// moves nothing and its error comes back as it is; so does the error of a
/// transfer that fails. Balances change only when both went through.
pub fn settle(
    step: Result<(Transfer, VaultEvent), VaultError>,
    source: &mut TokenAccount,
    destination: &mut TokenAccount,
) -> (r: Result<VaultEvent, VaultError>)
    ensures
        (r, *final(source), *final(destination)) == settled(step, *old(source), *old(destination)),
{
    match step {
        Err(e) => Err(e),
        Ok((order, event)) => match order.execute(source, destination) {
            Err(e) => Err(e),
            Ok(()) => Ok(event),
        },
    }
}

} // verus!
