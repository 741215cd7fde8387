//! Response shaping for OP transactions and the set-once sequencer handle.

use payload_stack::transaction::{
    apply_deposit_receipt_version, EthTransactionResponse, OpEthApi, OpTransaction, OpTxBuilder,
    RecoveredTransaction, SequencerClient, SetError,
};
use payload_stack::types::Hash256;

fn base_response() -> EthTransactionResponse {
    EthTransactionResponse {
        gas_price: Some(7),
        transaction_type: Some(126),
        input: [0xab; 32],
        input_len: 20,
        block_number: Some(400),
    }
}

fn deposit_tx() -> RecoveredTransaction {
    RecoveredTransaction {
        is_deposit: true,
        is_system_transaction: true,
        max_fee_per_gas: 55,
        source_hash: Some(Hash256 { hi: 1, lo: 2 }),
        mint: Some(1000),
    }
}

#[test]
fn sequencer_client_sets_once_and_hands_back_the_second() {
    let mut api = OpEthApi::new();
    assert_eq!(api.raw_tx_forwarder(), None);

    let first = SequencerClient { id: 1 };
    assert_eq!(api.set_sequencer_client(first), Ok(()));
    assert_eq!(api.raw_tx_forwarder(), Some(first));

    let second = SequencerClient { id: 2 };
    assert_eq!(
        api.set_sequencer_client(second),
        Err(SetError { rejected: second })
    );
    assert_eq!(api.raw_tx_forwarder(), Some(first));
}

#[test]
fn fill_stamps_deposit_fields() {
    let filled = OpTxBuilder::fill(&deposit_tx(), base_response());
    // A deposit advertises its fee cap as the gas price.
    assert_eq!(filled.inner.gas_price, Some(55));
    assert_eq!(filled.source_hash, Some(Hash256 { hi: 1, lo: 2 }));
    assert_eq!(filled.mint, Some(1000));
    assert_eq!(filled.is_system_tx, Some(true));
    assert_eq!(filled.deposit_receipt_version, None);
    // The rest of the base response passes through.
    assert_eq!(filled.inner.transaction_type, Some(126));
    assert_eq!(filled.inner.block_number, Some(400));
}

#[test]
fn fill_leaves_non_deposits_alone() {
    let tx = RecoveredTransaction {
        is_deposit: false,
        is_system_transaction: true,
        max_fee_per_gas: 55,
        source_hash: None,
        mint: None,
    };
    let filled = OpTxBuilder::fill(&tx, base_response());
    assert_eq!(filled.inner.gas_price, Some(7));
    // `is_system_tx` is only ever set where it is true of a deposit.
    assert_eq!(filled.is_system_tx, None);
    assert_eq!(filled.source_hash, None);
    assert_eq!(filled.mint, None);
}

#[test]
fn truncate_keeps_the_call_selector() {
    let mut filled = OpTxBuilder::fill(&deposit_tx(), base_response());
    OpTxBuilder::otterscan_api_truncate_input(&mut filled);
    assert_eq!(filled.inner.input_len, 4);
    assert_eq!(filled.inner.input, [0xab; 32]);
}

#[test]
fn tx_type_defaults_to_zero() {
    let mut filled = OpTxBuilder::fill(&deposit_tx(), base_response());
    assert_eq!(OpTxBuilder::tx_type(&filled), 126);
    filled.inner.transaction_type = None;
    assert_eq!(OpTxBuilder::tx_type(&filled), 0);
}

#[test]
fn deposit_receipt_version_needs_deposit_block_and_canyon() {
    let mut tx: OpTransaction = OpTxBuilder::fill(&deposit_tx(), base_response());

    let mut with_canyon = tx;
    apply_deposit_receipt_version(&mut with_canyon, true, true);
    assert_eq!(with_canyon.deposit_receipt_version, Some(1));

    let mut before_canyon = tx;
    apply_deposit_receipt_version(&mut before_canyon, true, false);
    assert_eq!(before_canyon.deposit_receipt_version, None);

    // A transaction not yet in a block keeps what `fill` left.
    tx.inner.block_number = None;
    let mut pending = tx;
    apply_deposit_receipt_version(&mut pending, true, true);
    assert_eq!(pending.deposit_receipt_version, None);

    // A non-deposit keeps its previous value even where the fork is active.
    let mut non_deposit = tx;
    non_deposit.inner.block_number = Some(3);
    non_deposit.deposit_receipt_version = Some(9);
    apply_deposit_receipt_version(&mut non_deposit, false, true);
    assert_eq!(non_deposit.deposit_receipt_version, Some(9));
}
