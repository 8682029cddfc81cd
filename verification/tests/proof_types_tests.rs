use overpass::proof_types::{build_proof_bundle, BitcoinProofType};

#[test]
fn proof_bundle_takes_first_32_bytes_of_channel_id() {
    let mut id = vec![0xabu8; 32];
    id.extend_from_slice(&[1, 2, 3]);
    let bundle = build_proof_bundle(vec![9, 9], 100, 60, 40, BitcoinProofType::Withdrawal, Some(id), 77);
    assert_eq!(bundle.proof.channel_id, "ab".repeat(32));
    assert_eq!(bundle.proof.public_inputs, vec![100, 60, 40]);
    assert_eq!(bundle.proof.proof_data, vec![9, 9]);
    assert_eq!(bundle.proof.timestamp, 77);
    assert_eq!(bundle.proof.created_at, 77);
    assert!(bundle.proof.verified_at.is_none());
    let bare = build_proof_bundle(vec![], 1, 1, 0, BitcoinProofType::Withdrawal, None, 0);
    assert!(bare.proof.channel_id.is_empty());
}
