//! The attributes contract: what any description of a requested block must
//! offer, and one concrete attribute type for the default strategy.
//!
//! Attributes are built once per incoming request by a fallible constructor
//! and are immutable afterwards. Their payload id is a pure function of the
//! fields the engine API identifies a request by, so a caller recomputing the
//! id from the same inputs always lands on the same value.

use vstd::prelude::*;
use crate::types::{Address, Hash256, PayloadId, Withdrawal, Withdrawals};

verus! {

/// The capability set of a requested-block description. `Rpc` is the raw
/// attribute payload the constructor accepts and `E` the error it rejects
/// with. Every operation is pinned to a specification function, so a caller
/// holding only the trait still knows each result exactly.
pub trait PayloadBuilderAttributes<Rpc, E>: Sized {
    /// What `try_new` returns for a given parent and raw payload.
    spec fn spec_try_new(parent: Hash256, rpc: Rpc) -> Result<Self, E>;

    /// The derived payload id.
    spec fn spec_payload_id(&self) -> PayloadId;

    /// The parent block hash the request builds on.
    spec fn spec_parent(&self) -> Hash256;

    /// The timestamp of the requested block.
    spec fn spec_timestamp(&self) -> u64;

    /// The beacon-block root of the parent, where the fork requires one.
    spec fn spec_parent_beacon_block_root(&self) -> Option<Hash256>;

    /// Where the block's fees should go.
    spec fn spec_suggested_fee_recipient(&self) -> Address;

    /// The randomness seed for the requested block.
    spec fn spec_prev_randao(&self) -> Hash256;

    /// The withdrawals the requested block must carry.
    spec fn spec_withdrawals(&self) -> Withdrawals;

    /// Builds typed attributes from an incoming request, or rejects it.
    fn try_new(parent: Hash256, rpc: Rpc) -> (r: Result<Self, E>)
        ensures
            r == Self::spec_try_new(parent, rpc),
    ;

    /// The derived payload id.
    fn payload_id(&self) -> (r: PayloadId)
        ensures
            r == self.spec_payload_id(),
    ;

    /// The parent block hash the request builds on.
    fn parent(&self) -> (r: Hash256)
        ensures
            r == self.spec_parent(),
    ;

    /// The timestamp of the requested block.
    fn timestamp(&self) -> (r: u64)
        ensures
            r == self.spec_timestamp(),
    ;

    /// The beacon-block root of the parent, where the fork requires one.
    fn parent_beacon_block_root(&self) -> (r: Option<Hash256>)
        ensures
            r == self.spec_parent_beacon_block_root(),
    ;

    /// Where the block's fees should go.
    fn suggested_fee_recipient(&self) -> (r: Address)
        ensures
            r == self.spec_suggested_fee_recipient(),
    ;

    /// The randomness seed for the requested block.
    fn prev_randao(&self) -> (r: Hash256)
        ensures
            r == self.spec_prev_randao(),
    ;

    /// The withdrawals the requested block must carry.
    fn withdrawals(&self) -> (r: &Withdrawals)
        ensures
            *r == self.spec_withdrawals(),
    ;
}

/// The raw attribute payload of an incoming build request, as the engine API
/// hands it over.
#[derive(Clone, Copy, Debug, PartialEq, Eq)]
pub struct PayloadAttributes {
    pub timestamp: u64,
    pub prev_randao: Hash256,
    pub suggested_fee_recipient: Address,
    pub withdrawals: Withdrawals,
    pub parent_beacon_block_root: Option<Hash256>,
}

/// Why a raw attribute payload was rejected.
#[derive(Clone, Copy, Debug, PartialEq, Eq)]
pub enum AttributesError {
    /// The raw request carries more withdrawals than one payload may hold.
    TooManyWithdrawals,
}

/// Folds a 256-bit word into 64 bits.
pub open spec fn spec_hash_word(h: Hash256) -> u64 {
    (((h.hi >> 64) & 0xffff_ffff_ffff_ffff) as u64) ^ ((h.hi & 0xffff_ffff_ffff_ffff) as u64)
        ^ (((h.lo >> 64) & 0xffff_ffff_ffff_ffff) as u64) ^ ((h.lo & 0xffff_ffff_ffff_ffff) as u64)
}

/// Folds an address into 64 bits.
pub open spec fn spec_address_word(a: Address) -> u64 {
    (a.hi as u64) ^ (((a.lo >> 64) & 0xffff_ffff_ffff_ffff) as u64)
        ^ ((a.lo & 0xffff_ffff_ffff_ffff) as u64)
}

/// Folds one withdrawal into 64 bits.
pub open spec fn spec_withdrawal_word(w: Withdrawal) -> u64 {
    w.index ^ ((w.validator_index << 16) | (w.validator_index >> 48))
        ^ ((w.amount << 32) | (w.amount >> 32)) ^ spec_address_word(w.address)
}

/// Folds an ordered sequence of withdrawals into 64 bits. The accumulator is
/// rotated before each new word, so the digest depends on the order.
pub open spec fn spec_withdrawals_digest(s: Seq<Withdrawal>) -> u64
    decreases s.len(),
{
    if s.len() == 0 {
        0u64
    } else {
        let acc = spec_withdrawals_digest(s.drop_last());
        ((acc << 1) | (acc >> 63)) ^ spec_withdrawal_word(s.last())
    }
}

/// The payload id derived for a request: a fold of exactly the fields the
/// engine API identifies a request by, so equal requests get equal ids.
pub open spec fn spec_derived_payload_id(parent: Hash256, rpc: PayloadAttributes) -> PayloadId {
    PayloadId {
        id: spec_hash_word(parent) ^ ((rpc.timestamp << 8) | (rpc.timestamp >> 56))
            ^ spec_hash_word(rpc.prev_randao) ^ spec_address_word(rpc.suggested_fee_recipient)
            ^ spec_withdrawals_digest(rpc.withdrawals@) ^ (match rpc.parent_beacon_block_root {
            Some(h) => spec_hash_word(h) ^ 0x9e37_79b9_7f4a_7c15,
            None => 0u64,
        }),
    }
}

/// Folds a 256-bit word into 64 bits.
pub fn hash_word(h: &Hash256) -> (r: u64)
    ensures
        r == spec_hash_word(*h),
{
    (((h.hi >> 64) & 0xffff_ffff_ffff_ffff) as u64) ^ ((h.hi & 0xffff_ffff_ffff_ffff) as u64)
        ^ (((h.lo >> 64) & 0xffff_ffff_ffff_ffff) as u64) ^ ((h.lo & 0xffff_ffff_ffff_ffff) as u64)
}

/// Folds an address into 64 bits.
pub fn address_word(a: &Address) -> (r: u64)
    ensures
        r == spec_address_word(*a),
{
    (a.hi as u64) ^ (((a.lo >> 64) & 0xffff_ffff_ffff_ffff) as u64)
        ^ ((a.lo & 0xffff_ffff_ffff_ffff) as u64)
}

/// Folds one withdrawal into 64 bits.
pub fn withdrawal_word(w: &Withdrawal) -> (r: u64)
    ensures
        r == spec_withdrawal_word(*w),
{
    w.index ^ ((w.validator_index << 16) | (w.validator_index >> 48))
        ^ ((w.amount << 32) | (w.amount >> 32)) ^ address_word(&w.address)
}

/// Folds an ordered sequence of withdrawals into 64 bits.
pub fn withdrawals_digest(ws: &Withdrawals) -> (r: u64)
    requires
        ws.wf(),
    ensures
        r == spec_withdrawals_digest(ws@),
{
    let n = ws.len();
    let mut acc: u64 = 0;
    let mut i: usize = 0;
    while i < n
        invariant
            ws.wf(),
            n == ws@.len(),
            i <= n,
            acc == spec_withdrawals_digest(ws@.take(i as int)),
        decreases n - i,
    {
        let w = ws.get(i);
        acc = ((acc << 1) | (acc >> 63)) ^ withdrawal_word(&w);
        i = i + 1;
        proof {
            assert(ws@.take(i as int).drop_last() =~= ws@.take(i - 1));
            assert(ws@.take(i as int).last() == ws@[i - 1]);
        }
    }
    proof {
        assert(ws@.take(n as int) =~= ws@);
    }
    acc
}

/// Derives the payload id for a request.
pub fn derive_payload_id(parent: &Hash256, rpc: &PayloadAttributes) -> (r: PayloadId)
    requires
        rpc.withdrawals.wf(),
    ensures
        r == spec_derived_payload_id(*parent, *rpc),
{
    let beacon: u64 = match rpc.parent_beacon_block_root {
        Some(h) => hash_word(&h) ^ 0x9e37_79b9_7f4a_7c15,
        None => 0u64,
    };
    PayloadId {
        id: hash_word(parent) ^ ((rpc.timestamp << 8) | (rpc.timestamp >> 56))
            ^ hash_word(&rpc.prev_randao) ^ address_word(&rpc.suggested_fee_recipient)
            ^ withdrawals_digest(&rpc.withdrawals) ^ beacon,
    }
}

/// The attribute type of the default building strategy: the raw fields of the
/// request beside the parent hash and the derived payload id.
#[derive(Clone, Copy, Debug, PartialEq, Eq)]
pub struct EthPayloadAttributes {
    pub id: PayloadId,
    pub parent: Hash256,
    pub timestamp: u64,
    pub suggested_fee_recipient: Address,
    pub prev_randao: Hash256,
    pub withdrawals: Withdrawals,
    pub parent_beacon_block_root: Option<Hash256>,
}

impl PayloadBuilderAttributes<PayloadAttributes, AttributesError> for EthPayloadAttributes {
    open spec fn spec_try_new(parent: Hash256, rpc: PayloadAttributes) -> Result<Self, AttributesError> {
        if rpc.withdrawals.wf() {
            Ok(EthPayloadAttributes {
                id: spec_derived_payload_id(parent, rpc),
                parent,
                timestamp: rpc.timestamp,
                suggested_fee_recipient: rpc.suggested_fee_recipient,
                prev_randao: rpc.prev_randao,
                withdrawals: rpc.withdrawals,
                parent_beacon_block_root: rpc.parent_beacon_block_root,
            })
        } else {
            Err(AttributesError::TooManyWithdrawals)
        }
    }

    open spec fn spec_payload_id(&self) -> PayloadId {
        self.id
    }

    open spec fn spec_parent(&self) -> Hash256 {
        self.parent
    }

    open spec fn spec_timestamp(&self) -> u64 {
        self.timestamp
    }

    open spec fn spec_parent_beacon_block_root(&self) -> Option<Hash256> {
        self.parent_beacon_block_root
    }

    open spec fn spec_suggested_fee_recipient(&self) -> Address {
        self.suggested_fee_recipient
    }

    open spec fn spec_prev_randao(&self) -> Hash256 {
        self.prev_randao
    }

    open spec fn spec_withdrawals(&self) -> Withdrawals {
        self.withdrawals
    }

    fn try_new(parent: Hash256, rpc: PayloadAttributes) -> (r: Result<Self, AttributesError>) {
        if rpc.withdrawals.count <= 16 {
            Ok(EthPayloadAttributes {
                id: derive_payload_id(&parent, &rpc),
                parent,
                timestamp: rpc.timestamp,
                suggested_fee_recipient: rpc.suggested_fee_recipient,
                prev_randao: rpc.prev_randao,
                withdrawals: rpc.withdrawals,
                parent_beacon_block_root: rpc.parent_beacon_block_root,
            })
        } else {
            Err(AttributesError::TooManyWithdrawals)
        }
    }

    fn payload_id(&self) -> (r: PayloadId) {
        self.id
    }

    fn parent(&self) -> (r: Hash256) {
        self.parent
    }

    fn timestamp(&self) -> (r: u64) {
        self.timestamp
    }

    fn parent_beacon_block_root(&self) -> (r: Option<Hash256>) {
        self.parent_beacon_block_root
    }

    fn suggested_fee_recipient(&self) -> (r: Address) {
        self.suggested_fee_recipient
    }

    fn prev_randao(&self) -> (r: Hash256) {
        self.prev_randao
    }

    fn withdrawals(&self) -> (r: &Withdrawals) {
        &self.withdrawals
    }
}

} // verus!
