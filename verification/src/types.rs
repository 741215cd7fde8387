//! Plain value types that flow through the builder stack.
//!
//! The stack never computes with block hashes, addresses or caches: it only
//! routes them between the caller and the inner builders. Each is therefore a
//! small copyable value, so that handing one to an inner builder and keeping
//! it for a later fallback attempt are the same value in every contract.

use vstd::prelude::*;

verus! {

/// A 256-bit word (a block hash, a randomness seed, a beacon-block root),
/// held as two 128-bit halves.
#[derive(Clone, Copy, Debug, PartialEq, Eq)]
pub struct Hash256 {
    pub hi: u128,
    pub lo: u128,
}

/// A 160-bit account address: 32 high bits beside 128 low bits.
#[derive(Clone, Copy, Debug, PartialEq, Eq)]
pub struct Address {
    pub hi: u32,
    pub lo: u128,
}

/// The 8-byte identifier under which the engine API asks for a payload.
#[derive(Clone, Copy, Debug, PartialEq, Eq)]
pub struct PayloadId {
    pub id: u64,
}

/// One withdrawal operation carried by a requested block.
#[derive(Clone, Copy, Debug, PartialEq, Eq)]
pub struct Withdrawal {
    pub index: u64,
    pub validator_index: u64,
    pub address: Address,
    pub amount: u64,
}

/// An ordered sequence of withdrawals. A payload holds at most 16 of them
/// (the engine API's cap), so the sequence lives in a fixed block of slots
/// beside a fill count and the whole value is copyable.
#[derive(Clone, Copy, Debug, PartialEq, Eq)]
pub struct Withdrawals {
    pub slots: [Withdrawal; 16],
    pub count: usize,
}

impl View for Withdrawals {
    type V = Seq<Withdrawal>;

    open spec fn view(&self) -> Seq<Withdrawal> {
        self.slots@.take(self.count as int)
    }
}

impl Withdrawals {
    /// The fill count stays within the slot block.
    pub open spec fn wf(&self) -> bool {
        self.count <= 16
    }

    /// An empty sequence of withdrawals.
    pub fn empty() -> (r: Withdrawals)
        ensures
            r.wf(),
            r@ == Seq::<Withdrawal>::empty(),
    {
        let zero = Withdrawal {
            index: 0,
            validator_index: 0,
            address: Address { hi: 0, lo: 0 },
            amount: 0,
        };
        let r = Withdrawals { slots: [zero; 16], count: 0 };
        proof {
            assert(r@ =~= Seq::<Withdrawal>::empty());
        }
        r
    }

    /// Appends one withdrawal at the end.
    pub fn push(&mut self, w: Withdrawal)
        requires
            old(self).wf(),
            old(self)@.len() < 16,
        ensures
            final(self).wf(),
            final(self)@ == old(self)@.push(w),
    {
        let ghost before = *self;
        self.slots[self.count] = w;
        self.count = self.count + 1;
        proof {
            assert(self@ =~= before@.push(w));
        }
    }

    /// How many withdrawals are held.
    pub fn len(&self) -> (r: usize)
        requires
            self.wf(),
        ensures
            r == self@.len(),
    {
        self.count
    }

    /// The withdrawal at position `i`.
    pub fn get(&self, i: usize) -> (r: Withdrawal)
        requires
            self.wf(),
            i < self@.len(),
        ensures
            r == self@[i as int],
    {
        self.slots[i]
    }
}

/// A finished, sealed block as this layer sees it: its hash and its height.
/// What else a block holds is the concern of the single builder that made it.
#[derive(Clone, Copy, Debug, PartialEq, Eq)]
pub struct SealedBlock {
    pub hash: Hash256,
    pub number: u64,
}

/// Header extra data: at most 32 bytes, stored zero-padded beside a length.
#[derive(Clone, Copy, Debug, PartialEq, Eq)]
pub struct ExtraData {
    pub bytes: [u8; 32],
    pub len: u8,
}

impl ExtraData {
    /// No extra data.
    pub fn none() -> (r: ExtraData)
        ensures
            r.len == 0,
    {
        ExtraData { bytes: [0; 32], len: 0 }
    }
}

/// The execution-state read cache a builder may reuse across repeated
/// attempts for one parent. This layer never looks inside it; it only
/// threads the value from the caller to whichever builder runs.
#[derive(Clone, Copy, Debug, PartialEq, Eq)]
pub struct CachedReads {
    pub entries: u64,
}

/// The shared cancellation token, named by identity: the stack hands the
/// very token it was given on to the inner builder it dispatches to, and
/// never mints an independent one.
#[derive(Clone, Copy, Debug, PartialEq, Eq)]
pub struct CancelSignal {
    pub token: u64,
}

} // verus!
