//! The persisted record that binds the vault to its manager.
use vstd::prelude::*;
use crate::address::Address;

verus! {

/// The vault's record: the one identity that may withdraw.
#[derive(Clone, Copy, Debug, PartialEq, Eq)]
pub struct VaultData {
    pub manager: Address,
}

/// The storage slot of the record: where it lies, and the record once it has
/// been created.
#[derive(Clone, Copy, Debug, PartialEq, Eq)]
pub struct VaultAccount {
    pub key: Address,
    pub data: Option<VaultData>,
}

impl VaultAccount {
    /// An empty slot at `key`.
    pub fn empty(key: Address) -> (slot: VaultAccount)
        ensures
            slot.key == key,
            slot.data is None,
    {
        VaultAccount { key, data: None }
    }

    /// The recorded manager, once the vault has been initialized.
    pub open spec fn spec_manager(&self) -> Option<Address> {
        match self.data {
            Some(record) => Some(record.manager),
            None => None,
        }
    }

    /// Read the recorded manager; `None` while the vault is uninitialized.
    #[verifier::when_used_as_spec(spec_manager)]
    pub fn manager(&self) -> (m: Option<Address>)
        ensures
            m == self.spec_manager(),
    {
        match self.data {
            Some(record) => Some(record.manager),
            None => None,
        }
    }

    /// Whether the record exists.
    pub fn is_initialized(&self) -> (b: bool)
        ensures
            b == (self.data is Some),
    {
        self.data.is_some()
    }
}

} // verus!
