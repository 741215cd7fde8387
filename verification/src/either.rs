//! The two-variant sum type that unifies two unrelated builder type families
//! under one attribute, payload and error type.
//!
//! The tag of an `Either`-typed attribute value decides, for the whole of one
//! build attempt, which inner builder is addressed; it is never retagged
//! while the attempt runs.

use vstd::prelude::*;
use crate::attributes::PayloadBuilderAttributes;
use crate::payload::BuiltPayload;
use crate::types::{Address, Hash256, PayloadId, SealedBlock, Withdrawals};

verus! {

/// A value of the left kind or of the right kind.
#[derive(Clone, Copy, Debug, PartialEq, Eq)]
pub enum Either<L, R> {
    /// The left variant.
    Left(L),
    /// The right variant.
    Right(R),
}

/// Attributes of either kind are attributes again: each accessor forwards to
/// whichever variant is present, and construction dispatches on the tag of
/// the raw payload, keeping the tag on success and on failure alike — so a
/// caller can tell a left-side rejection from a right-side one without
/// losing the inner error.
impl<LRpc, RRpc, LE, RE, L, R> PayloadBuilderAttributes<
    Either<LRpc, RRpc>,
    Either<LE, RE>,
> for Either<L, R> where
    L: PayloadBuilderAttributes<LRpc, LE>,
    R: PayloadBuilderAttributes<RRpc, RE>,
 {
    open spec fn spec_try_new(parent: Hash256, rpc: Either<LRpc, RRpc>) -> Result<
        Self,
        Either<LE, RE>,
    > {
        match rpc {
            Either::Left(a) => match L::spec_try_new(parent, a) {
                Ok(l) => Ok(Either::Left(l)),
                Err(e) => Err(Either::Left(e)),
            },
            Either::Right(a) => match R::spec_try_new(parent, a) {
                Ok(r) => Ok(Either::Right(r)),
                Err(e) => Err(Either::Right(e)),
            },
        }
    }

    open spec fn spec_payload_id(&self) -> PayloadId {
        match self {
            Either::Left(l) => l.spec_payload_id(),
            Either::Right(r) => r.spec_payload_id(),
        }
    }

    open spec fn spec_parent(&self) -> Hash256 {
        match self {
            Either::Left(l) => l.spec_parent(),
            Either::Right(r) => r.spec_parent(),
        }
    }

    open spec fn spec_timestamp(&self) -> u64 {
        match self {
            Either::Left(l) => l.spec_timestamp(),
            Either::Right(r) => r.spec_timestamp(),
        }
    }

    open spec fn spec_parent_beacon_block_root(&self) -> Option<Hash256> {
        match self {
            Either::Left(l) => l.spec_parent_beacon_block_root(),
            Either::Right(r) => r.spec_parent_beacon_block_root(),
        }
    }

    open spec fn spec_suggested_fee_recipient(&self) -> Address {
        match self {
            Either::Left(l) => l.spec_suggested_fee_recipient(),
            Either::Right(r) => r.spec_suggested_fee_recipient(),
        }
    }

    open spec fn spec_prev_randao(&self) -> Hash256 {
        match self {
            Either::Left(l) => l.spec_prev_randao(),
            Either::Right(r) => r.spec_prev_randao(),
        }
    }

    open spec fn spec_withdrawals(&self) -> Withdrawals {
        match self {
            Either::Left(l) => l.spec_withdrawals(),
            Either::Right(r) => r.spec_withdrawals(),
        }
    }

    fn try_new(parent: Hash256, rpc: Either<LRpc, RRpc>) -> (r: Result<Self, Either<LE, RE>>) {
        match rpc {
            Either::Left(a) => match L::try_new(parent, a) {
                Ok(l) => Ok(Either::Left(l)),
                Err(e) => Err(Either::Left(e)),
            },
            Either::Right(a) => match R::try_new(parent, a) {
                Ok(r) => Ok(Either::Right(r)),
                Err(e) => Err(Either::Right(e)),
            },
        }
    }

    fn payload_id(&self) -> (r: PayloadId) {
        match self {
            Either::Left(l) => l.payload_id(),
            Either::Right(r) => r.payload_id(),
        }
    }

    fn parent(&self) -> (r: Hash256) {
        match self {
            Either::Left(l) => l.parent(),
            Either::Right(r) => r.parent(),
        }
    }

    fn timestamp(&self) -> (r: u64) {
        match self {
            Either::Left(l) => l.timestamp(),
            Either::Right(r) => r.timestamp(),
        }
    }

    fn parent_beacon_block_root(&self) -> (r: Option<Hash256>) {
        match self {
            Either::Left(l) => l.parent_beacon_block_root(),
            Either::Right(r) => r.parent_beacon_block_root(),
        }
    }

    fn suggested_fee_recipient(&self) -> (r: Address) {
        match self {
            Either::Left(l) => l.suggested_fee_recipient(),
            Either::Right(r) => r.suggested_fee_recipient(),
        }
    }

    fn prev_randao(&self) -> (r: Hash256) {
        match self {
            Either::Left(l) => l.prev_randao(),
            Either::Right(r) => r.prev_randao(),
        }
    }

    fn withdrawals(&self) -> (r: &Withdrawals) {
        match self {
            Either::Left(l) => l.withdrawals(),
            Either::Right(r) => r.withdrawals(),
        }
    }
}

/// Payloads of either kind are payloads again: both accessors forward to the
/// active variant.
impl<L: BuiltPayload, R: BuiltPayload> BuiltPayload for Either<L, R> {
    open spec fn spec_block(&self) -> SealedBlock {
        match self {
            Either::Left(l) => l.spec_block(),
            Either::Right(r) => r.spec_block(),
        }
    }

    open spec fn spec_fees(&self) -> u128 {
        match self {
            Either::Left(l) => l.spec_fees(),
            Either::Right(r) => r.spec_fees(),
        }
    }

    fn block(&self) -> (r: &SealedBlock) {
        match self {
            Either::Left(l) => l.block(),
            Either::Right(r) => r.block(),
        }
    }

    fn fees(&self) -> (r: u128) {
        match self {
            Either::Left(l) => l.fees(),
            Either::Right(r) => r.fees(),
        }
    }
}

} // verus!
