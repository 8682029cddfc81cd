use overpass::bitcoin_types::BitcoinNetwork;
use overpass::btc::{OutPoint, TxOutput};
use overpass::channel_state::{BitcoinChannelState, HTLCState, HTLCStatus};
use overpass::tx_builder::{hash_preimage, TransactionBuilder, TransactionError, TransactionType};
use secp256k1::{PublicKey, Secp256k1, SecretKey};

fn random_secret() -> [u8; 32] {
    SecretKey::new(&mut secp256k1::rand::thread_rng()).secret_bytes()
}

fn random_pubkey() -> [u8; 33] {
    let sk = SecretKey::new(&mut secp256k1::rand::thread_rng());
    PublicKey::from_secret_key(&Secp256k1::new(), &sk).serialize()
}

fn create_test_builder() -> TransactionBuilder {
    TransactionBuilder::new(random_secret(), BitcoinNetwork::BitcoinTestnet).unwrap()
}

fn create_test_channel_state() -> BitcoinChannelState {
    BitcoinChannelState::new([0u8; 32], 1_000_000, 100_000)
}

fn create_test_htlc_state(amount: u64, timelock: u32) -> HTLCState {
    HTLCState {
        status: HTLCStatus::Pending,
        amount,
        timelock,
        preimage_hash: Some([0u8; 32]),
        preimage: Some([0u8; 32]),
        recipient_pubkey: Some(random_pubkey()),
        refund_pubkey: Some(random_pubkey()),
        signature: None,
        execution_txid: Some([0u8; 32]),
    }
}

#[test]
fn test_funding_transaction_creation() {
    let mut builder = create_test_builder();
    let channel_state = create_test_channel_state();

    let outpoint = OutPoint { txid: [0u8; 32], vout: 0 };
    builder.add_utxo(outpoint, TxOutput { value: 2_000_000, script_pubkey: vec![] });

    let result = builder.create_funding_transaction(&channel_state, vec![outpoint], 1000);

    assert!(result.is_ok());
    let tx = result.unwrap();
    assert_eq!(tx.metadata.tx_type, TransactionType::Funding);
    assert_eq!(tx.tx_data.output[0].value, channel_state.balance);
}

#[test]
fn test_htlc_transaction_creation() {
    let builder = create_test_builder();
    let mut channel_state = create_test_channel_state();
    let htlc_state = create_test_htlc_state(500_000, 144);

    channel_state.metadata.closure_txid = Some([0u8; 32]);

    let result = builder.create_htlc_transaction(&channel_state, &htlc_state, 1000);

    assert!(result.is_ok());
    let tx = result.unwrap();
    assert_eq!(tx.metadata.tx_type, TransactionType::HTLCCreate);
    assert_eq!(tx.tx_data.output[0].value, htlc_state.amount);
}

#[test]
fn test_htlc_refund() {
    let builder = create_test_builder();
    let mut channel_state = create_test_channel_state();
    let mut htlc_state = create_test_htlc_state(500_000, 144);

    channel_state.block_height = htlc_state.timelock + 1;
    htlc_state.execution_txid = Some([0u8; 32]);

    let result = builder.create_htlc_refund_transaction(&channel_state, &htlc_state, 1000);

    assert!(result.is_ok());
    let tx = result.unwrap();
    assert_eq!(tx.metadata.tx_type, TransactionType::HTLCRefund);
}

#[test]
fn test_closing_transaction() {
    let builder = create_test_builder();
    let mut channel_state = create_test_channel_state();

    channel_state.metadata.closure_txid = Some([0u8; 32]);

    let result = builder.create_closing_transaction(&channel_state, vec![], 1000);

    assert!(result.is_ok());
    let tx = result.unwrap();
    assert_eq!(tx.metadata.tx_type, TransactionType::ChannelClose);
    assert_eq!(tx.tx_data.output[0].value, channel_state.balance - 1000);
}

#[test]
fn bitcoin_transaction_test_insufficient_funds() {
    let mut builder = create_test_builder();
    let channel_state = create_test_channel_state();

    let outpoint = OutPoint { txid: [0u8; 32], vout: 0 };
    builder.add_utxo(outpoint, TxOutput { value: 100_000, script_pubkey: vec![] });

    let result = builder.create_funding_transaction(&channel_state, vec![outpoint], 1000);

    assert!(matches!(result, Err(TransactionError::InsufficientFunds)));
}

#[test]
fn test_invalid_htlc_timelock() {
    let builder = create_test_builder();
    let mut channel_state = create_test_channel_state();
    let htlc_state = create_test_htlc_state(500_000, 144);

    channel_state.block_height = htlc_state.timelock - 1;
    channel_state.metadata.closure_txid = Some([0u8; 32]);

    let result = builder.create_htlc_refund_transaction(&channel_state, &htlc_state, 1000);

    assert!(matches!(result, Err(TransactionError::InvalidState)));
}

#[test]
fn funding_change_output_and_signatures() {
    let mut builder = create_test_builder();
    let channel_state = create_test_channel_state();
    let a = OutPoint { txid: [1u8; 32], vout: 0 };
    let b = OutPoint { txid: [2u8; 32], vout: 3 };
    builder.add_utxo(a, TxOutput { value: 700_000, script_pubkey: vec![] });
    builder.add_utxo(b, TxOutput { value: 400_000, script_pubkey: vec![] });
    let tx = builder.create_funding_transaction(&channel_state, vec![a, b], 1000).unwrap();
    assert_eq!(tx.tx_data.input.len(), 2);
    assert_eq!(tx.tx_data.input[1].previous_output, b);
    assert_eq!(tx.tx_data.output[1].value, 1_100_000 - 1_000_000 - 1000);
    assert_eq!(tx.signatures.len(), 2);
    assert_eq!(tx.signatures[1].input_index, 1);
    assert_eq!(tx.metadata.fee, 1000);
    // P2PKH script: OP_DUP OP_HASH160 <20> ... OP_EQUALVERIFY OP_CHECKSIG
    let script = &tx.tx_data.output[0].script_pubkey;
    assert_eq!(script.len(), 25);
    assert_eq!(&script[0..3], &[0x76, 0xa9, 0x14]);
    assert_eq!(&script[23..], &[0x88, 0xac]);
}

#[test]
fn unknown_utxo_is_refused() {
    let builder = create_test_builder();
    let channel_state = create_test_channel_state();
    let result = builder.create_funding_transaction(&channel_state, vec![OutPoint { txid: [5u8; 32], vout: 1 }], 10);
    assert!(matches!(result, Err(TransactionError::UTXONotFound)));
}

#[test]
fn adding_a_utxo_twice_keeps_the_latest() {
    let mut builder = create_test_builder();
    let channel_state = BitcoinChannelState::new([0u8; 32], 10, 1);
    let op = OutPoint { txid: [3u8; 32], vout: 0 };
    builder.add_utxo(op, TxOutput { value: 5, script_pubkey: vec![] });
    builder.add_utxo(op, TxOutput { value: 50, script_pubkey: vec![] });
    let tx = builder.create_funding_transaction(&channel_state, vec![op], 1).unwrap();
    assert_eq!(tx.tx_data.output[1].value, 50 - 10 - 1);
}

#[test]
fn test_htlc_execution() {
    let builder = create_test_builder();
    let mut channel_state = create_test_channel_state();
    let htlc_state = create_test_htlc_state(500_000, 144);
    let preimage = [0u8; 32];

    // Set required txid
    channel_state.metadata.closure_txid = Some([0u8; 32]);

    let result = builder.create_htlc_execution_transaction(&channel_state, &htlc_state, &preimage, 1000);

    assert!(result.is_ok());
    let tx = result.unwrap();
    assert_eq!(tx.metadata.tx_type, TransactionType::HTLCExecute);
}

#[test]
fn htlc_execution_with_matching_preimage() {
    let builder = create_test_builder();
    let channel_state = create_test_channel_state();
    let preimage = [7u8; 32];
    let mut htlc_state = create_test_htlc_state(500_000, 144);
    htlc_state.preimage_hash = Some(hash_preimage(&preimage));
    let tx = builder.create_htlc_execution_transaction(&channel_state, &htlc_state, &preimage, 1000).unwrap();
    assert_eq!(tx.metadata.tx_type, TransactionType::HTLCExecute);
    assert_eq!(tx.tx_data.output[0].value, 499_000);
}

#[test]
fn htlc_execution_errors_in_order() {
    let builder = create_test_builder();
    let channel_state = create_test_channel_state();
    let mut htlc_state = create_test_htlc_state(500_000, 144);
    // Neither the preimage on record nor one whose SHA-256 is the payment hash.
    let result = builder.create_htlc_execution_transaction(&channel_state, &htlc_state, &[9u8; 32], 1000);
    assert!(matches!(result, Err(TransactionError::InvalidProof)));
    htlc_state.status = HTLCStatus::Executed;
    let result = builder.create_htlc_execution_transaction(&channel_state, &htlc_state, &[0u8; 32], 1000);
    assert!(matches!(result, Err(TransactionError::InvalidState)));
    let mut htlc_state = create_test_htlc_state(500_000, 144);
    htlc_state.preimage_hash = Some(hash_preimage(&[1u8; 32]));
    htlc_state.execution_txid = None;
    let result = builder.create_htlc_execution_transaction(&channel_state, &htlc_state, &[1u8; 32], 1000);
    assert!(matches!(result, Err(TransactionError::TransactionNotFound)));
    htlc_state.execution_txid = Some([1u8; 32]);
    htlc_state.recipient_pubkey = None;
    let result = builder.create_htlc_execution_transaction(&channel_state, &htlc_state, &[1u8; 32], 1000);
    assert!(matches!(result, Err(TransactionError::InvalidScript)));
}

#[test]
fn htlc_creation_needs_keys_and_closure() {
    let builder = create_test_builder();
    let channel_state = create_test_channel_state();
    let mut htlc_state = create_test_htlc_state(1000, 10);
    let result = builder.create_htlc_transaction(&channel_state, &htlc_state, 1);
    assert!(matches!(result, Err(TransactionError::TransactionNotFound)));
    htlc_state.refund_pubkey = None;
    let result = builder.create_htlc_transaction(&channel_state, &htlc_state, 1);
    assert!(matches!(result, Err(TransactionError::InvalidScript)));
}

#[test]
fn closing_without_closure_txid_is_refused() {
    let builder = create_test_builder();
    let channel_state = create_test_channel_state();
    let result = builder.create_closing_transaction(&channel_state, vec![1, 2], 10);
    assert!(matches!(result, Err(TransactionError::TransactionNotFound)));
}

#[test]
fn builder_refuses_invalid_secret() {
    assert!(TransactionBuilder::new([0u8; 32], BitcoinNetwork::Bitcoin).is_none());
}
