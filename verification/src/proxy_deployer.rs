//! The configuration that a proxy deployer starts with.
use vstd::prelude::*;

verus! {

/// A proxy deployer: what it keeps in storage, and what deploying and
/// upgrading it do.
pub trait ProxyDeployer: Sized {
    /// The gas given to a save operation by default.
    spec fn spec_default_gas_for_save_operation(&self) -> u64;

    /// Stores the default gas for save operations.
    fn set_default_gas_for_save_operation(&mut self, gas: u64)
        ensures
            final(self).spec_default_gas_for_save_operation() == gas,
    ;

    /// Deploys with the default gas for save operations.
    fn init(&mut self, default_gas_for_save: u64)
        ensures
            final(self).spec_default_gas_for_save_operation() == default_gas_for_save,
    {
        self.set_default_gas_for_save_operation(default_gas_for_save);
    }

    /// Upgrading keeps the state as it is.
    fn upgrade(&mut self)
        ensures
            *final(self) == *old(self),
    {
    }
}

/// The storage of a proxy deployer.
pub struct ProxyDeployerStorage {
    pub default_gas_for_save_operation: u64,
}

impl ProxyDeployer for ProxyDeployerStorage {
    open spec fn spec_default_gas_for_save_operation(&self) -> u64 {
        self.default_gas_for_save_operation
    }

    fn set_default_gas_for_save_operation(&mut self, gas: u64) {
        self.default_gas_for_save_operation = gas;
    }
}

} // verus!
