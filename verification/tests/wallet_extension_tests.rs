use overpass::bitcoin_types::BitcoinNetwork;
use overpass::btc::{OutPoint, Tx, TxInput, TxOutput};
use overpass::wallet_extension::{
    estimate_tx_fees, BitcoinTxStatus, BitcoinUtxo, BitcoinWalletExtension, PrivateChannelState, WalletChannel,
    WalletExtensionError, WalletStateUpdate,
};

fn utxo(seed: u8, value: u64, spent: bool) -> BitcoinUtxo {
    BitcoinUtxo {
        outpoint: OutPoint { txid: [seed; 32], vout: seed as u32 },
        txout: TxOutput { value, script_pubkey: vec![seed] },
        height: 10,
        is_spent: spent,
    }
}

fn channel(seed: u8, balance: u64, seqno: u64) -> WalletChannel {
    WalletChannel {
        channel_id: [seed; 32],
        balance,
        seqno,
        state: PrivateChannelState { balance, nonce: 0, sequence_number: seqno, merkle_root: [0u8; 32] },
        timeout: None,
    }
}

#[test]
fn fee_estimate_formula() {
    assert_eq!(estimate_tx_fees(2, 2, 1), Some(10 + 2 * 148 + 2 * 34));
    assert_eq!(estimate_tx_fees(1, 1, 3), Some((10 + 148 + 34) * 3));
    assert_eq!(estimate_tx_fees(1, 1, u64::MAX), None);
}

#[test]
fn recalculate_counts_unspent_and_channels() {
    let mut w = BitcoinWalletExtension::new([1u8; 32], BitcoinNetwork::Bitcoin);
    w.utxos = vec![utxo(1, 100, false), utxo(2, 50, true), utxo(3, 25, false)];
    w.channels = vec![channel(1, 1000, 0), channel(2, 500, 0)];
    assert_eq!(w.recalculate_balances(), Ok(()));
    assert_eq!(w.total_balance, 125);
    assert_eq!(w.total_locked_balance, 1500);
    w.utxos.push(utxo(4, u64::MAX, false));
    assert_eq!(w.recalculate_balances(), Err(WalletExtensionError::BalanceOverflow));
    assert_eq!(w.total_balance, 125);
}

#[test]
fn update_state_adopts_values() {
    let mut w = BitcoinWalletExtension::new([1u8; 32], BitcoinNetwork::Bitcoin);
    w.utxos = vec![utxo(1, 70, false)];
    let r = w.update_state(WalletStateUpdate { new_balance: 9, new_nonce: 4, merkle_root: [6u8; 32] });
    assert_eq!(r, Ok(()));
    assert_eq!(w.state.balance, 9);
    assert_eq!(w.state.nonce, 4);
    assert_eq!(w.total_balance, 70);
}

#[test]
fn funding_picks_largest_first_and_marks_spent() {
    let mut w = BitcoinWalletExtension::new([1u8; 32], BitcoinNetwork::Bitcoin);
    w.change_script = vec![0xAA];
    w.utxos = vec![utxo(1, 15_000, false), utxo(2, 40_000, false), utxo(3, 90_000, true), utxo(4, 20_000, false)];
    let tx = w.create_funding_transaction(50_000, &[2u8; 33]).unwrap();
    // 40_000 then 20_000: 60_000 covers 50_000.
    assert_eq!(tx.input.len(), 2);
    assert_eq!(tx.input[0].previous_output.txid, [2u8; 32]);
    assert_eq!(tx.input[1].previous_output.txid, [4u8; 32]);
    assert_eq!(tx.output[0].value, 50_000);
    let fee = 10 + 2 * 148 + 2 * 34;
    assert_eq!(tx.output[1].value, 60_000 - 50_000 - fee);
    assert_eq!(tx.output[1].script_pubkey, vec![0xAA]);
    assert!(w.utxos[1].is_spent && w.utxos[3].is_spent && !w.utxos[0].is_spent);
}

#[test]
fn funding_errors() {
    let mut w = BitcoinWalletExtension::new([1u8; 32], BitcoinNetwork::Bitcoin);
    w.utxos = vec![utxo(1, 15_000, false)];
    assert_eq!(w.create_funding_transaction(9_999, &[]).unwrap_err(), WalletExtensionError::BelowReserve);
    assert_eq!(w.create_funding_transaction(20_000, &[]).unwrap_err(), WalletExtensionError::InsufficientFunds);
    assert!(!w.utxos[0].is_spent);
    // Exactly the amount: no room for the fee.
    assert_eq!(w.create_funding_transaction(15_000, &[]).unwrap_err(), WalletExtensionError::FeeCalculationOverflow);
}

#[test]
fn commitment_and_closing_transactions() {
    let mut w = BitcoinWalletExtension::new([1u8; 32], BitcoinNetwork::Bitcoin);
    w.change_script = vec![0xBB];
    w.channels = vec![channel(5, 10_000, 3)];
    let state = PrivateChannelState { balance: 4_000, nonce: 0, sequence_number: 4, merkle_root: [0u8; 32] };
    let commit = w.create_commitment_transaction(&[5u8; 32], &state).unwrap();
    assert_eq!(commit.input[0].previous_output.vout, 0xFFFF_FFFF);
    assert_eq!(commit.output.len(), 1);
    assert_eq!(commit.output[0].value, 4_000);
    let dusty = PrivateChannelState { balance: 100, ..state };
    assert_eq!(w.create_commitment_transaction(&[5u8; 32], &dusty).unwrap().output.len(), 0);
    assert_eq!(w.create_commitment_transaction(&[6u8; 32], &state).unwrap_err(), WalletExtensionError::ChannelNotFound);
    let close = w.create_closing_transaction(&[5u8; 32], &state).unwrap();
    assert_eq!(close.output[0].value, 4_000);
    assert_eq!(close.output[0].script_pubkey, vec![0xBB]);
    let stale = PrivateChannelState { sequence_number: 3, ..state };
    assert_eq!(w.create_closing_transaction(&[5u8; 32], &stale).unwrap_err(), WalletExtensionError::InvalidFinalState);
    let greedy = PrivateChannelState { balance: 10_001, ..state };
    assert_eq!(w.create_closing_transaction(&[5u8; 32], &greedy).unwrap_err(), WalletExtensionError::InvalidFinalState);
}

#[test]
fn breach_remedy_spends_first_output_less_fee() {
    let mut w = BitcoinWalletExtension::new([1u8; 32], BitcoinNetwork::Bitcoin);
    w.change_script = vec![0xCC];
    let breaching = Tx {
        version: 2,
        lock_time: 0,
        input: vec![TxInput { previous_output: OutPoint { txid: [9u8; 32], vout: 1 }, script_sig: vec![], sequence: 0xFFFF_FFFF }],
        output: vec![TxOutput { value: 5_000, script_pubkey: vec![] }],
    };
    let tx = w.create_breach_remedy_transaction(&[0u8; 32], &breaching, &[]).unwrap();
    assert_eq!(tx.output[0].value, 4_000);
    assert_eq!(tx.input[0].previous_output.vout, 0);
    let bt = bitcoin::Transaction {
        version: bitcoin::transaction::Version(2),
        lock_time: bitcoin::absolute::LockTime::from_consensus(0),
        input: vec![bitcoin::TxIn {
            previous_output: bitcoin::OutPoint {
                txid: <bitcoin::Txid as bitcoin::hashes::Hash>::from_byte_array([9u8; 32]),
                vout: 1,
            },
            script_sig: bitcoin::ScriptBuf::new(),
            sequence: bitcoin::Sequence(0xFFFF_FFFF),
            witness: bitcoin::Witness::new(),
        }],
        output: vec![bitcoin::TxOut { value: bitcoin::Amount::from_sat(5_000), script_pubkey: bitcoin::ScriptBuf::new() }],
    };
    let expected = <bitcoin::Txid as bitcoin::hashes::Hash>::to_byte_array(bt.compute_txid());
    assert_eq!(tx.input[0].previous_output.txid, expected);
    let small = Tx { output: vec![TxOutput { value: 300, script_pubkey: vec![] }], ..breaching.clone() };
    assert_eq!(w.create_breach_remedy_transaction(&[0u8; 32], &small, &[]).unwrap().output[0].value, 0);
    let empty = Tx { output: vec![], ..breaching };
    assert_eq!(w.create_breach_remedy_transaction(&[0u8; 32], &empty, &[]).unwrap_err(), WalletExtensionError::NoRelevantOutput);
}

#[test]
fn update_htlcs_checks_limits() {
    let mut w = BitcoinWalletExtension::new([1u8; 32], BitcoinNetwork::Bitcoin);
    w.channels = vec![channel(5, 10_000, 3)];
    let id = [5u8; 32];
    let s = w.update_htlcs(&id, vec![(5_000, [1u8; 32])], vec![]).unwrap();
    assert_eq!(s.sequence_number, 4);
    assert_eq!(w.update_htlcs(&[6u8; 32], vec![], vec![]).unwrap_err(), WalletExtensionError::ChannelNotFound);
    assert_eq!(w.update_htlcs(&id, vec![(999, [1u8; 32])], vec![]).unwrap_err(), WalletExtensionError::HtlcBelowMinimum);
    assert_eq!(
        w.update_htlcs(&id, vec![(600_000_000, [1u8; 32]), (600_000_000, [2u8; 32])], vec![]).unwrap_err(),
        WalletExtensionError::HtlcValueTooHigh
    );
    let many: Vec<(u64, [u8; 32])> = (0..484).map(|_| (1_000u64, [0u8; 32])).collect();
    assert_eq!(w.update_htlcs(&id, many, vec![]).unwrap_err(), WalletExtensionError::TooManyHtlcs);
}

#[test]
fn process_block_confirms_pending_listed() {
    let mut w = BitcoinWalletExtension::new([1u8; 32], BitcoinNetwork::Bitcoin);
    let tx = Tx { version: 2, lock_time: 0, input: vec![], output: vec![] };
    w.transactions = vec![
        ([1u8; 32], tx.clone(), BitcoinTxStatus::Pending),
        ([2u8; 32], tx.clone(), BitcoinTxStatus::Pending),
        ([3u8; 32], tx, BitcoinTxStatus::Failed),
    ];
    assert!(w.process_block(700, vec![[1u8; 32], [3u8; 32]]).is_ok());
    assert_eq!(w.transactions[0].2, BitcoinTxStatus::Confirmed(700));
    assert_eq!(w.transactions[1].2, BitcoinTxStatus::Pending);
    assert_eq!(w.transactions[2].2, BitcoinTxStatus::Failed);
}

#[test]
fn state_transition_check() {
    let w = BitcoinWalletExtension::new([1u8; 32], BitcoinNetwork::Bitcoin);
    let old = PrivateChannelState { balance: 100, nonce: 0, sequence_number: 7, merkle_root: [0u8; 32] };
    let next = PrivateChannelState { balance: 150, sequence_number: 8, ..old };
    assert!(w.verify_state_transition(&old, &next, true));
    assert!(!w.verify_state_transition(&old, &next, false));
    let skip = PrivateChannelState { sequence_number: 9, ..next };
    assert!(!w.verify_state_transition(&old, &skip, true));
    let big = PrivateChannelState { balance: 100 + 1_000_000_001, ..next };
    assert!(!w.verify_state_transition(&old, &big, true));
}
