use vstd::prelude::*;
use crate::fee::FEE_SCALE;

verus! {

/// The market's flash-mint configuration, loaded by the caller and
/// read-only here: the fee rate as a numerator over `FEE_SCALE`, the
/// address of the mintable and burnable stable-asset contract, and the
/// address that collects the fee.
pub struct Config {
    pub flash_mint_fee: u64,
    pub stable_contract: String,
    pub collector_contract: String,
}

impl Config {
    /// A configuration is well formed when its fee rate lies in `[0, 1)`;
    /// the store that persists it establishes this, and this core only
    /// assumes it.
    pub open spec fn wf(self) -> bool {
        self.flash_mint_fee < FEE_SCALE
    }
}

} // verus!
