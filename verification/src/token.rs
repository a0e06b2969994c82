//! Token accounts and the transfer that moves balance between two of them.
//!
//! A vault operation moves no tokens itself: it orders a [`Transfer`]. A
//! deployed program sends the order to the token program.
//! [`Transfer::execute`] carries it out on two accounts held in memory, by
//! the rules the vault relies on: only the owner of the source moves funds
//! out of it, no balance is overdrawn, and what leaves one account arrives in
//! the other.
use vstd::prelude::*;
use crate::address::Address;
use crate::error::VaultError;
use crate::identity::AuthorizationToken;

verus! {

/// A token account: who may move funds out of it, which asset it holds, and
/// how much.
#[derive(Clone, Copy, Debug, PartialEq, Eq)]
pub struct TokenAccount {
    pub key: Address,
    pub owner: Address,
    pub mint: Address,
    pub amount: u64,
}

/// An order to move `amount` from the account at `from` to the account at
/// `to`, authorized by `authority`. `signer` is `None` where the authority
/// signed the call itself, and holds the vault's authorization where the
/// vault address is the authority; whoever sends the order on signs with it.
#[derive(Debug, PartialEq, Eq)]
pub struct Transfer {
    pub from: Address,
    pub to: Address,
    pub authority: Address,
    pub amount: u64,
    pub signer: Option<AuthorizationToken>,
}

/// What carrying out `order` on `source` and `destination` gives: the two
/// accounts afterwards, or the reason nothing moved.
///
/// Nothing moves where the order names other accounts (`TransferFailure`),
/// else where its authority does not own the source (`Unauthorized`), else
/// where the mints differ (`TransferFailure`), else where the source holds
/// less than the amount (`InsufficientBalance`), else where the destination
/// cannot hold that much more (`TransferFailure`).
pub open spec fn transfer_outcome(
    order: Transfer,
    source: TokenAccount,
    destination: TokenAccount,
) -> Result<(TokenAccount, TokenAccount), VaultError> {
    if order.from != source.key || order.to != destination.key {
        Err(VaultError::TransferFailure)
    } else if order.authority != source.owner {
        Err(VaultError::Unauthorized)
    } else if source.mint != destination.mint {
        Err(VaultError::TransferFailure)
    } else if order.amount > source.amount {
        Err(VaultError::InsufficientBalance)
    } else if destination.amount + order.amount > u64::MAX {
        Err(VaultError::TransferFailure)
    } else {
        Ok(
            (
                TokenAccount { amount: (source.amount - order.amount) as u64, ..source },
                TokenAccount { amount: (destination.amount + order.amount) as u64, ..destination },
            ),
        )
    }
}

impl Transfer {
    /// Carry out the order on the two accounts it names. Either the whole
    /// amount moves, or both accounts stay as they were and the error says
    /// why. The order, and with it any authorization it holds, is used up.
    pub fn execute(self, source: &mut TokenAccount, destination: &mut TokenAccount) -> (r: Result<
        (),
        VaultError,
    >)
        ensures
            match transfer_outcome(self, *old(source), *old(destination)) {
                Ok((s, d)) => r is Ok && *final(source) == s && *final(destination) == d,
                Err(e) => r == Err::<(), VaultError>(e) && *final(source) == *old(source)
                    && *final(destination) == *old(destination),
            },
    {
        if self.from != source.key || self.to != destination.key {
            return Err(VaultError::TransferFailure);
        }
        if self.authority != source.owner {
            return Err(VaultError::Unauthorized);
        }
        if source.mint != destination.mint {
            return Err(VaultError::TransferFailure);
        }
        if self.amount > source.amount {
            return Err(VaultError::InsufficientBalance);
        }
        if self.amount > u64::MAX - destination.amount {
            return Err(VaultError::TransferFailure);
        }
        source.amount = source.amount - self.amount;
        destination.amount = destination.amount + self.amount;
        Ok(())
    }
}

} // verus!
