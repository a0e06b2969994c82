//! The vault's identity: an address derived from a fixed label and the
//! program's own identity, with the bump that proves the derivation.
use vstd::prelude::*;
use anchor_lang::prelude::Pubkey;
use crate::address::Address;
use crate::error::VaultError;

verus! {

/// The fixed label every vault address is derived from: the ASCII bytes of
/// `vault`.
pub const VAULT_LABEL: [u8; 5] = [118, 97, 117, 108, 116];

/// What `Pubkey::try_find_program_address` returns for the single seed `seed`
/// and the program `program_id`: the derived address with its bump, or `None`
/// where no bump yields an address.
pub uninterp spec fn program_address(seed: Seq<u8>, program_id: [u8; 32]) -> Option<([u8; 32], u8)>;

/// Whether these 32 bytes encode a point of the ed25519 curve, which is what
/// `Pubkey::is_on_curve` tests. The public key of every key pair is such a
/// point, so an address off the curve belongs to no key pair.
pub uninterp spec fn on_curve(bytes: [u8; 32]) -> bool;

/// Calls `Pubkey::try_find_program_address` with `seed` as the only seed.
///
/// Trusted: the result is a function of the seed and the program identity
/// alone, named [`program_address`]. The search hashes its inputs and tests
/// each hash against the curve; it reads nothing else and does not panic. It
/// hands out a hash only after the curve test has failed on it, so an address
/// it returns is not on the curve.
#[verifier::external_body]
fn try_find_program_address(seed: &[u8], program_id: &[u8; 32]) -> (r: Option<([u8; 32], u8)>)
    ensures
        r == program_address(seed@, *program_id),
        r matches Some((address, _)) ==> !on_curve(address),
{
    let id = Pubkey::new_from_array(*program_id);
    match Pubkey::try_find_program_address(&[seed], &id) {
        Some((address, bump)) => Some((address.to_bytes(), bump)),
        None => None,
    }
}

/// A derived vault identity: the address and the bump that proves it.
#[derive(Clone, Copy, Debug, PartialEq, Eq)]
pub struct VaultIdentity {
    pub address: Address,
    pub bump: u8,
}

/// The identity of the vault of `program_id`, where one exists.
pub open spec fn vault_identity(program_id: Address) -> Option<VaultIdentity> {
    match program_address(VAULT_LABEL@, program_id.bytes) {
        Some((bytes, bump)) => Some(VaultIdentity { address: Address { bytes }, bump }),
        None => None,
    }
}

/// Derive the vault's address and bump from the fixed label and the program's
/// identity. The result depends on `program_id` alone, so every call with the
/// same program yields the same address and the same bump; and the address
/// is one that no key pair owns.
pub fn derive(program_id: &Address) -> (r: Result<VaultIdentity, VaultError>)
    ensures
        r == match vault_identity(*program_id) {
            Some(identity) => Ok::<VaultIdentity, VaultError>(identity),
            None => Err(VaultError::DerivationError),
        },
        r matches Ok(identity) ==> !on_curve(identity.address.bytes),
{
    match try_find_program_address(VAULT_LABEL.as_slice(), &program_id.bytes) {
        Some((bytes, bump)) => Ok(VaultIdentity { address: Address { bytes }, bump }),
        None => Err(VaultError::DerivationError),
    }
}

/// The capability to move funds out of accounts that the vault address owns:
/// the seeds that re-create the address. It cannot be copied, and the
/// transfer it authorizes consumes it.
#[derive(Debug, PartialEq, Eq)]
pub struct AuthorizationToken {
    pub label: [u8; 5],
    pub bump: u8,
}

/// Build the one-shot authorization that signs as the vault address proved by
/// `bump`.
pub fn sign_as(bump: u8) -> (token: AuthorizationToken)
    ensures
        token.label == VAULT_LABEL,
        token.bump == bump,
{
    AuthorizationToken { label: VAULT_LABEL, bump }
}

} // verus!
