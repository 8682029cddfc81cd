use overpass::bitcoin_types::BitcoinNetwork;
use overpass::client_proofs::{BitcoinProofBundle, BitcoinProofMetadata, BitcoinProofType, BitcoinZkProof};
use overpass::wallet::{BitcoinUTXO, BitcoinWallet, BitcoinWalletConfig, WalletError};
use secp256k1::{PublicKey, Secp256k1, SecretKey};
use sha2::Digest;

fn create_test_wallet() -> (BitcoinWallet, [u8; 32]) {
    let secret_key = SecretKey::new(&mut secp256k1::rand::thread_rng()).secret_bytes();
    let config = BitcoinWalletConfig {
        network: BitcoinNetwork::BitcoinTestnet,
        min_confirmation: 6,
        dust_threshold: 546,
        fee_rate: 1,
        max_channel_size: 1_000_000_000,
        min_channel_size: 100_000,
        max_channels: 100,
        dispute_period: 144,
    };
    let wallet = BitcoinWallet::new(&secret_key, BitcoinNetwork::BitcoinTestnet, config, 100_000).unwrap();
    (wallet, secret_key)
}

fn random_pubkey() -> [u8; 33] {
    let sk = SecretKey::new(&mut secp256k1::rand::thread_rng());
    PublicKey::from_secret_key(&Secp256k1::new(), &sk).serialize()
}

#[test]
fn test_wallet_creation() {
    let (wallet, secret) = create_test_wallet();
    assert_eq!(wallet.network, BitcoinNetwork::BitcoinTestnet);
    assert_eq!(wallet.state.balance, 0);
    assert_eq!(wallet.state.locked_balance, 0);
    let sk = SecretKey::from_slice(&secret).unwrap();
    let pk = PublicKey::from_secret_key(&Secp256k1::new(), &sk).serialize();
    let expected: [u8; 32] = sha2::Sha256::digest(pk).into();
    assert_eq!(wallet.wallet_id, expected);
}

#[test]
fn test_utxo_processing() {
    let (mut wallet, _) = create_test_wallet();
    let utxo = BitcoinUTXO { txid: [0u8; 32], vout: 0, amount: 100_000, script_pubkey: vec![], confirmation_height: 100_000 };
    let proof_bundle = BitcoinProofBundle {
        proof: BitcoinZkProof {
            proof_data: vec![],
            public_inputs: vec![],
            merkle_root: [0u8; 32],
            timestamp: 0,
            btc_block_height: 100_000,
            funding_txid: [0u8; 32],
            output_index: 0,
            htlc_script: vec![],
            nullifier: [0u8; 32],
        },
        metadata: BitcoinProofMetadata {
            proof_type: BitcoinProofType::StateTransition,
            channel_id: [0u8; 32],
            created_at: 0,
            verified_at: None,
            btc_block_height: 100_000,
            htlc_timelock: 0,
            commitment_nullifier: [0u8; 32],
            merkle_root: [0u8; 32],
            height_bounds: (0, 0),
        },
    };
    let result = wallet.process_utxo(utxo.clone(), proof_bundle);
    assert!(result.is_ok());
    assert!(wallet.state.utxo_set.iter().any(|u| u.txid == utxo.txid && u.vout == utxo.vout && u.amount == utxo.amount));
    assert_eq!(wallet.state.balance, 100_000);
}

#[test]
fn bitcoin_wallet_test_transaction_creation() {
    let (mut wallet, _) = create_test_wallet();
    let recipient = random_pubkey();
    wallet.state.utxo_set.push(BitcoinUTXO {
        txid: [0u8; 32],
        vout: 0,
        amount: 100_000,
        script_pubkey: vec![],
        confirmation_height: 100_000 - 7,
    });
    wallet.state.balance = 100_000;
    let result = wallet.create_transaction(&recipient, 50_000, 1000);
    assert!(result.is_ok());
    let tx = result.unwrap();
    assert_eq!(tx.output[0].value, 50_000);
    assert_eq!(tx.output[1].value, 49_000);
}

#[test]
fn test_utxo_selection() {
    let (mut wallet, _) = create_test_wallet();
    wallet.state.utxo_set.push(BitcoinUTXO { txid: [1u8; 32], vout: 0, amount: 50_000, script_pubkey: vec![], confirmation_height: 100_000 - 7 });
    wallet.state.utxo_set.push(BitcoinUTXO { txid: [2u8; 32], vout: 1, amount: 30_000, script_pubkey: vec![], confirmation_height: 100_000 - 7 });
    wallet.state.balance = 80_000;
    let result = wallet.select_utxos(70_000);
    assert!(result.is_ok());
    let selected = result.unwrap();
    assert_eq!(selected.len(), 2);
    assert!(selected.iter().map(|&i| wallet.state.utxo_set[i].amount).sum::<u64>() >= 70_000);
}

#[test]
fn bitcoin_wallet_test_insufficient_funds() {
    let (wallet, _) = create_test_wallet();
    let receiver = random_pubkey();
    let result = wallet.create_transaction(&receiver, 100_000, 1000);
    assert!(matches!(result, Err(WalletError::InsufficientFunds)));
}

#[test]
fn unconfirmed_outputs_are_not_spent() {
    let (mut wallet, _) = create_test_wallet();
    wallet.state.utxo_set.push(BitcoinUTXO { txid: [1u8; 32], vout: 0, amount: 50_000, script_pubkey: vec![], confirmation_height: 99_995 });
    wallet.state.balance = 50_000;
    let result = wallet.create_transaction(&random_pubkey(), 10_000, 100);
    assert!(matches!(result, Err(WalletError::InsufficientFunds)));
}

#[test]
fn used_nullifier_and_duplicate_outputs() {
    let (mut wallet, _) = create_test_wallet();
    let utxo = BitcoinUTXO { txid: [3u8; 32], vout: 2, amount: 10, script_pubkey: vec![1], confirmation_height: 1 };
    let bundle = BitcoinProofBundle {
        proof: BitcoinZkProof {
            proof_data: vec![],
            public_inputs: vec![],
            merkle_root: [0u8; 32],
            timestamp: 0,
            btc_block_height: 0,
            funding_txid: [0u8; 32],
            output_index: 0,
            htlc_script: vec![],
            nullifier: [8u8; 32],
        },
        metadata: BitcoinProofMetadata {
            proof_type: BitcoinProofType::StateTransition,
            channel_id: [0u8; 32],
            created_at: 0,
            verified_at: None,
            btc_block_height: 0,
            htlc_timelock: 0,
            commitment_nullifier: [0u8; 32],
            merkle_root: [0u8; 32],
            height_bounds: (0, 0),
        },
    };
    assert!(wallet.process_utxo(utxo.clone(), bundle.clone()).is_ok());
    assert!(wallet.process_utxo(utxo.clone(), bundle.clone()).is_ok());
    assert_eq!(wallet.state.utxo_set.len(), 1);
    assert_eq!(wallet.state.balance, 20);
    wallet.nullifier_set.push([8u8; 32]);
    assert!(matches!(wallet.process_utxo(utxo, bundle), Err(WalletError::InvalidProof)));
    assert_eq!(wallet.state.balance, 20);
}

#[test]
fn fee_at_wallet_rate() {
    let (wallet, _) = create_test_wallet();
    assert_eq!(wallet.calculate_transaction_fee(1, 1), 192);
    assert_eq!(wallet.calculate_transaction_fee(2, 3), 2 * 148 + 3 * 34 + 10);
}

#[test]
fn wallet_refuses_invalid_secret_key() {
    let config = BitcoinWalletConfig {
        network: BitcoinNetwork::BitcoinTestnet,
        min_confirmation: 6,
        dust_threshold: 546,
        fee_rate: 1,
        max_channel_size: 1_000_000_000,
        min_channel_size: 100_000,
        max_channels: 100,
        dispute_period: 144,
    };
    let result = BitcoinWallet::new(&[0u8; 32], BitcoinNetwork::BitcoinTestnet, config, 100_000);
    assert!(matches!(result, Err(WalletError::InvalidSignature)));
}
