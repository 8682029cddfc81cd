use overpass::bitcoin_types::BitcoinNetwork;
use overpass::btc::{Tx, TxInput, TxOutput, OutPoint};
use overpass::channel_manager::{
    BitcoinChannelManager, ChannelBasepoints, ChannelManagerError, HTLCDirection, HTLCState, HTLC,
};
use overpass::wallet_extension::BitcoinChannelConfig;
use secp256k1::{PublicKey, Secp256k1, SecretKey};
use sha2::Digest;

fn pubkey(seed: u8) -> [u8; 33] {
    let sk = SecretKey::from_slice(&[seed; 32]).unwrap();
    PublicKey::from_secret_key(&Secp256k1::new(), &sk).serialize()
}

fn manager() -> BitcoinChannelManager {
    BitcoinChannelManager::new(BitcoinNetwork::BitcoinTestnet, BitcoinChannelConfig::default())
}

fn basepoints() -> ChannelBasepoints {
    ChannelBasepoints { revocation: pubkey(1), payment: pubkey(2), delayed_payment: pubkey(3), htlc: pubkey(4) }
}

#[test]
fn open_channel_checks_funding_and_push() {
    let mut m = manager();
    assert_eq!(m.open_channel(pubkey(9), 19_999, 0), Err(ChannelManagerError::FundingTooLow));
    assert_eq!(m.open_channel(pubkey(9), 20_000, 20_000_000), Err(ChannelManagerError::PushTooHigh));
    assert!(m.open_channel(pubkey(9), 20_000, 19_999_999).is_ok());
}

#[test]
fn channel_id_is_double_sha256_of_key_and_amount() {
    let mut m = manager();
    let key = pubkey(9);
    let id = m.open_channel(key, 50_000, 1_000).unwrap();
    let mut data = key.to_vec();
    data.extend_from_slice(&50_000u64.to_le_bytes());
    let first = sha2::Sha256::digest(&data);
    let expected: [u8; 32] = sha2::Sha256::digest(first).into();
    assert_eq!(id, expected);
}

#[test]
fn channel_life_cycle() {
    let mut m = manager();
    let id = m.open_channel(pubkey(9), 50_000, 1_000).unwrap();
    assert_eq!(m.close_channel(id).unwrap_err(), ChannelManagerError::NotActive);
    assert_eq!(m.accept_channel(id, pubkey(8), basepoints()), Ok(()));
    assert_eq!(m.accept_channel(id, pubkey(8), basepoints()), Err(ChannelManagerError::NotOpening));
    let closing = m.close_channel(id).unwrap();
    assert_eq!(closing.version, 2);
    assert!(closing.input.is_empty() && closing.output.is_empty());
    assert_eq!(m.close_channel(id).unwrap_err(), ChannelManagerError::NotActive);
}

#[test]
fn unknown_channel_is_refused() {
    let mut m = manager();
    let id = [7u8; 32];
    assert_eq!(m.accept_channel(id, pubkey(8), basepoints()), Err(ChannelManagerError::ChannelNotFound));
    assert_eq!(m.close_channel(id).unwrap_err(), ChannelManagerError::ChannelNotFound);
    assert_eq!(m.force_close_channel(id).unwrap_err(), ChannelManagerError::ChannelNotFound);
    assert_eq!(m.create_commitment_transaction(id, true, None).unwrap_err(), ChannelManagerError::ChannelNotFound);
}

#[test]
fn basepoints_must_be_valid_and_distinct() {
    let m = manager();
    assert!(m.verify_basepoints(&basepoints()));
    let mut same = basepoints();
    same.htlc = same.payment;
    assert!(!m.verify_basepoints(&same));
    let mut invalid = basepoints();
    invalid.revocation = [0u8; 33];
    assert!(!m.verify_basepoints(&invalid));
    let mut m = manager();
    let id = m.open_channel(pubkey(9), 50_000, 0).unwrap();
    assert_eq!(m.accept_channel(id, pubkey(8), same), Err(ChannelManagerError::InvalidBasepoints));
}

#[test]
fn force_close_returns_latest_commitment() {
    let mut m = manager();
    let id = m.open_channel(pubkey(9), 50_000, 0).unwrap();
    assert_eq!(m.force_close_channel(id).unwrap_err(), ChannelManagerError::NoCommitmentTransaction);
    let tx = Tx {
        version: 2,
        lock_time: 5,
        input: vec![TxInput { previous_output: OutPoint { txid: [1u8; 32], vout: 0 }, script_sig: vec![], sequence: 0xFFFF_FFFF }],
        output: vec![TxOutput { value: 40_000, script_pubkey: vec![0x51] }],
    };
    assert_eq!(m.update_commitment(id, tx), Ok(()));
    let back = m.force_close_channel(id).unwrap();
    assert_eq!(back.lock_time, 5);
    assert_eq!(back.output[0].value, 40_000);
    assert_eq!(back.output[0].script_pubkey, vec![0x51]);
}

#[test]
fn commitment_outputs_follow_balance_and_dust() {
    let mut m = manager();
    // 50_000 sat funded, 10_000_000 msat pushed: our share is 40_000 sat.
    let id = m.open_channel(pubkey(9), 50_000, 10_000_000).unwrap();
    let htlcs = vec![
        HTLC { amount_msat: 600_000, payment_hash: [2u8; 32], cltv_expiry: 500, direction: HTLCDirection::Offered, state: HTLCState::Pending },
        HTLC { amount_msat: 100_000, payment_hash: [3u8; 32], cltv_expiry: 500, direction: HTLCDirection::Received, state: HTLCState::Pending },
    ];
    let local = m.create_commitment_transaction(id, true, Some(htlcs.clone())).unwrap();
    assert_eq!(local.input.len(), 1);
    assert_eq!(local.output.len(), 2);
    assert_eq!(local.output[0].value, 40_000);
    assert_eq!(local.output[1].value, 600);
    // The counterparty's commitment needs its keys, which are not known yet.
    assert_eq!(
        m.create_commitment_transaction(id, false, Some(htlcs)).unwrap_err(),
        ChannelManagerError::MissingRemoteBasepoint
    );
}

#[test]
fn initial_commitments_keep_ours_as_latest() {
    let mut m = manager();
    assert_eq!(m.setup_initial_commitments(&[7u8; 32], &pubkey(8)).unwrap_err(), ChannelManagerError::ChannelNotFound);
    // Nothing pushed: the counterparty's share is below the dust limit, so
    // its commitment needs none of its keys.
    let id = m.open_channel(pubkey(9), 50_000, 0).unwrap();
    let (ours, theirs) = m.setup_initial_commitments(&id, &pubkey(8)).unwrap();
    assert_eq!(ours.output.len(), 1);
    assert_eq!(ours.output[0].value, 50_000);
    assert!(theirs.output.is_empty());
    assert_eq!(ours.input[0].sequence, 0xFFFF_FFFF);
    let latest = m.force_close_channel(id).unwrap();
    assert_eq!(latest.output[0].value, ours.output[0].value);
    assert_eq!(latest.output[0].script_pubkey, ours.output[0].script_pubkey);
    assert_eq!(latest.input[0].previous_output.txid, ours.input[0].previous_output.txid);
    // With a share pushed to it, the counterparty's commitment needs its
    // keys, which are not known yet; nothing is kept.
    let id = m.open_channel(pubkey(10), 50_000, 10_000_000).unwrap();
    assert_eq!(m.setup_initial_commitments(&id, &pubkey(8)).unwrap_err(), ChannelManagerError::MissingRemoteBasepoint);
    assert_eq!(m.force_close_channel(id).unwrap_err(), ChannelManagerError::NoCommitmentTransaction);
}
