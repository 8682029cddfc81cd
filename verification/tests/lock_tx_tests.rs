use overpass::btc::{OutPoint, Tx, TxInput, TxOutput};
use overpass::lock_tx::{create_lock_transaction, sign_lock_transaction, LockTxError, UnspentOutput};
use secp256k1::{PublicKey, Secp256k1, SecretKey};

fn unspent(seed: u8, amount: u64) -> UnspentOutput {
    UnspentOutput { outpoint: OutPoint { txid: [seed; 32], vout: 0 }, script_pubkey: vec![0x00, 0x14, seed], amount }
}

#[test]
fn lock_transaction_selects_in_order_with_change() {
    let utxos = vec![unspent(1, 30_000), unspent(2, 30_000), unspent(3, 30_000)];
    let tx = create_lock_transaction(&utxos, &vec![0xF0], &vec![0x0F], 50_000, 1_000).unwrap();
    assert_eq!(tx.input.len(), 2);
    assert_eq!(tx.output.len(), 2);
    assert_eq!(tx.output[0].value, 50_000);
    assert_eq!(tx.output[0].script_pubkey, vec![0x0F]);
    assert_eq!(tx.output[1].value, 9_000);
    assert_eq!(tx.output[1].script_pubkey, vec![0xF0]);
}

#[test]
fn lock_transaction_exact_amount_has_no_change() {
    let utxos = vec![unspent(1, 51_000)];
    let tx = create_lock_transaction(&utxos, &vec![], &vec![], 50_000, 1_000).unwrap();
    assert_eq!(tx.output.len(), 1);
}

#[test]
fn lock_transaction_insufficient() {
    let utxos = vec![unspent(1, 10)];
    assert_eq!(create_lock_transaction(&utxos, &vec![], &vec![], 50, 1).unwrap_err(), LockTxError::InsufficientFunds);
}

#[test]
fn signing_sets_p2pkh_script_sigs() {
    let secret = [7u8; 32];
    let pk = PublicKey::from_secret_key(&Secp256k1::new(), &SecretKey::from_slice(&secret).unwrap()).serialize();
    let utxos = vec![unspent(1, 30_000), unspent(2, 30_000)];
    let tx = create_lock_transaction(&utxos, &vec![1], &vec![2], 50_000, 1_000).unwrap();
    let signed = sign_lock_transaction(&tx, &utxos, &secret).unwrap();
    assert_eq!(signed.input.len(), 2);
    for input in signed.input.iter() {
        let s = &input.script_sig;
        let sig_len = s[0] as usize;
        assert!(sig_len <= 73);
        assert_eq!(s[sig_len], 0x01);
        assert_eq!(s[sig_len + 1], 33);
        assert_eq!(&s[sig_len + 2..], &pk[..]);
    }
    assert_eq!(signed.output[1].value, tx.output[1].value);
    let stray = Tx {
        input: vec![TxInput { previous_output: OutPoint { txid: [9u8; 32], vout: 0 }, script_sig: vec![], sequence: 0 }],
        output: vec![TxOutput { value: 1, script_pubkey: vec![] }],
        ..tx
    };
    assert_eq!(sign_lock_transaction(&stray, &utxos, &secret).unwrap_err(), LockTxError::UtxoNotFound);
}
