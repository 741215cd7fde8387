//! Shaping of OP transaction responses, and the sequencer-forwarding handle.
//!
//! The surrounding RPC plumbing — loading a transaction, recovering a raw
//! one, talking to the pool or to the sequencer over the network — is an
//! external collaborator. What stands here is the decision logic that shapes
//! a response: which fields of the deposit family are stamped onto the
//! answer, when the deposit receipt version applies, and how the set-once
//! sequencer handle behaves.

use vstd::prelude::*;
use crate::types::Hash256;

verus! {

/// A handle on the sequencer endpoint that raw transactions are forwarded
/// to, named by identity.
#[derive(Clone, Copy, Debug, PartialEq, Eq)]
pub struct SequencerClient {
    pub id: u64,
}

/// The rejected value of a second attempt to install a sequencer client.
#[derive(Clone, Copy, Debug, PartialEq, Eq)]
pub struct SetError {
    pub rejected: SequencerClient,
}

/// The transaction-serving side of the OP RPC surface, as far as its own
/// state goes: the sequencer client is a set-once cell, empty until
/// installed and immutable afterwards.
#[derive(Clone, Copy, Debug, PartialEq, Eq)]
pub struct OpEthApi {
    pub sequencer_client: Option<SequencerClient>,
}

impl OpEthApi {
    /// An API instance with no sequencer client installed.
    pub fn new() -> (r: OpEthApi)
        ensures
            r.sequencer_client is None,
    {
        OpEthApi { sequencer_client: None }
    }

    /// Installs the sequencer client that `eth_sendRawTransaction` forwards
    /// raw transactions to. The cell is set once: a second installation is
    /// refused and hands the rejected client back, leaving the first one in
    /// place.
    pub fn set_sequencer_client(&mut self, sequencer_client: SequencerClient) -> (r: Result<
        (),
        SetError,
    >)
        ensures
            old(self).sequencer_client is None ==> r is Ok && final(self).sequencer_client
                == Some(sequencer_client),
            old(self).sequencer_client is Some ==> r == Err::<(), SetError>(
                SetError { rejected: sequencer_client },
            ) && *final(self) == *old(self),
    {
        match self.sequencer_client {
            None => {
                self.sequencer_client = Some(sequencer_client);
                Ok(())
            },
            Some(_) => Err(SetError { rejected: sequencer_client }),
        }
    }

    /// The installed sequencer client, if one is set.
    pub fn raw_tx_forwarder(&self) -> (r: Option<SequencerClient>)
        ensures
            r == self.sequencer_client,
    {
        self.sequencer_client
    }
}

/// What response shaping reads off a recovered signed transaction.
#[derive(Clone, Copy, Debug, PartialEq, Eq)]
pub struct RecoveredTransaction {
    /// Whether this is a deposit transaction.
    pub is_deposit: bool,
    /// Whether the deposit is a system transaction.
    pub is_system_transaction: bool,
    /// The fee cap of the transaction.
    pub max_fee_per_gas: u128,
    /// The source hash of a deposit.
    pub source_hash: Option<Hash256>,
    /// The minted value of a deposit.
    pub mint: Option<u128>,
}

/// The base transaction response, as the chain-agnostic builder fills it.
/// The input is capped at 32 bytes here, of which only the four-byte call
/// selector matters to any caller of the truncation below.
#[derive(Clone, Copy, Debug, PartialEq, Eq)]
pub struct EthTransactionResponse {
    pub gas_price: Option<u128>,
    pub transaction_type: Option<u8>,
    pub input: [u8; 32],
    pub input_len: u8,
    pub block_number: Option<u64>,
}

/// The OP transaction response: the base response beside the deposit-family
/// fields.
#[derive(Clone, Copy, Debug, PartialEq, Eq)]
pub struct OpTransaction {
    pub inner: EthTransactionResponse,
    pub source_hash: Option<Hash256>,
    pub mint: Option<u128>,
    pub is_system_tx: Option<bool>,
    pub deposit_receipt_version: Option<u8>,
}

/// Builds the OP transaction response type.
#[derive(Clone, Copy, Debug, PartialEq, Eq)]
pub struct OpTxBuilder;

/// The OP response that `fill` shapes from a signed transaction and the base
/// response already built for it.
pub open spec fn spec_filled(tx: RecoveredTransaction, inner: EthTransactionResponse) -> OpTransaction {
    OpTransaction {
        inner: EthTransactionResponse {
            gas_price: if tx.is_deposit {
                Some(tx.max_fee_per_gas)
            } else {
                inner.gas_price
            },
            ..inner
        },
        source_hash: tx.source_hash,
        mint: tx.mint,
        is_system_tx: if tx.is_deposit && tx.is_system_transaction {
            Some(true)
        } else {
            None
        },
        deposit_receipt_version: None,
    }
}

impl OpTxBuilder {
    /// Shapes the OP response for `tx` out of the base response `inner`: a
    /// deposit advertises its fee cap as the gas price, the deposit fields
    /// are stamped on, `is_system_tx` is set only where it is true, and the
    /// deposit receipt version is left for the lookup below.
    pub fn fill(tx: &RecoveredTransaction, inner: EthTransactionResponse) -> (r: OpTransaction)
        ensures
            r == spec_filled(*tx, inner),
    {
        let gas_price = if tx.is_deposit {
            Some(tx.max_fee_per_gas)
        } else {
            inner.gas_price
        };
        OpTransaction {
            inner: EthTransactionResponse {
                gas_price,
                transaction_type: inner.transaction_type,
                input: inner.input,
                input_len: inner.input_len,
                block_number: inner.block_number,
            },
            source_hash: tx.source_hash,
            mint: tx.mint,
            is_system_tx: if tx.is_deposit && tx.is_system_transaction {
                Some(true)
            } else {
                None
            },
            deposit_receipt_version: None,
        }
    }

    /// Truncates the response's input to its four-byte call selector.
    pub fn otterscan_api_truncate_input(tx: &mut OpTransaction)
        requires
            old(tx).inner.input_len >= 4,
        ensures
            *final(tx) == (OpTransaction {
                inner: EthTransactionResponse { input_len: 4u8, ..old(tx).inner },
                ..*old(tx)
            }),
    {
        tx.inner.input_len = 4;
    }

    /// The numeric transaction type of a response; untyped legacy
    /// transactions count as zero.
    pub fn tx_type(tx: &OpTransaction) -> (r: u8)
        ensures
            r == (match tx.inner.transaction_type {
                Some(t) => t,
                None => 0u8,
            }),
    {
        match tx.inner.transaction_type {
            Some(t) => t,
            None => 0,
        }
    }
}

/// The deposit receipt version a served transaction carries after the fork
/// lookup: version 1 exactly where the transaction is a deposit, its block
/// is known, and the Canyon fork is active there; otherwise the response
/// keeps what `fill` left.
pub open spec fn spec_deposit_receipt_version(tx: OpTransaction, is_deposit: bool, canyon_active: bool) -> Option<u8> {
    if is_deposit && tx.inner.block_number is Some {
        if canyon_active {
            Some(1u8)
        } else {
            None
        }
    } else {
        tx.deposit_receipt_version
    }
}

/// Stamps the deposit receipt version onto a response, given whether the
/// transaction is a deposit and whether the Canyon fork is active at its
/// block — the fork lookup itself is the chain spec's business.
pub fn apply_deposit_receipt_version(tx: &mut OpTransaction, is_deposit: bool, canyon_active: bool)
    ensures
        *final(tx) == (OpTransaction {
            deposit_receipt_version: spec_deposit_receipt_version(*old(tx), is_deposit, canyon_active),
            ..*old(tx)
        }),
{
    if is_deposit && tx.inner.block_number.is_some() {
        tx.deposit_receipt_version = if canyon_active {
            Some(1)
        } else {
            None
        };
    }
}

} // verus!
