//! The built-payload contract: what any finished candidate block must offer,
//! and one concrete payload type for the default strategy.

use vstd::prelude::*;
use crate::types::{PayloadId, SealedBlock};

verus! {

/// The capability set of a finished payload: the sealed block and the total
/// fees it captured. Pure accessors over an already-finalized value, with no
/// failure modes.
pub trait BuiltPayload: Sized {
    /// The sealed block.
    spec fn spec_block(&self) -> SealedBlock;

    /// The total fees the payload captured.
    spec fn spec_fees(&self) -> u128;

    /// The sealed block.
    fn block(&self) -> (r: &SealedBlock)
        ensures
            *r == self.spec_block(),
    ;

    /// The total fees the payload captured.
    fn fees(&self) -> (r: u128)
        ensures
            r == self.spec_fees(),
    ;
}

/// The payload type of the default building strategy.
#[derive(Clone, Copy, Debug, PartialEq, Eq)]
pub struct EthBuiltPayload {
    pub id: PayloadId,
    pub block: SealedBlock,
    pub fees: u128,
}

impl EthBuiltPayload {
    /// Bundles a sealed block with its id and fee total.
    pub fn new(id: PayloadId, block: SealedBlock, fees: u128) -> (r: EthBuiltPayload)
        ensures
            r == (EthBuiltPayload { id, block, fees }),
    {
        EthBuiltPayload { id, block, fees }
    }
}

impl BuiltPayload for EthBuiltPayload {
    open spec fn spec_block(&self) -> SealedBlock {
        self.block
    }

    open spec fn spec_fees(&self) -> u128 {
        self.fees
    }

    fn block(&self) -> (r: &SealedBlock) {
        &self.block
    }

    fn fees(&self) -> (r: u128) {
        self.fees
    }
}

} // verus!
