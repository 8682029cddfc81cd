use overpass::bitcoin_types::{BitcoinAccountData, BitcoinNetwork, BitcoinTransactionData};

#[test]
fn test_bitcoin_network_from() {
    assert_eq!(BitcoinNetwork::from(0), BitcoinNetwork::Bitcoin);
    assert_eq!(BitcoinNetwork::from(1), BitcoinNetwork::BitcoinTestnet);
    assert_eq!(BitcoinNetwork::from(2), BitcoinNetwork::BitcoinRegtest);
    assert_eq!(BitcoinNetwork::from(3), BitcoinNetwork::BitcoinSignet);
    assert_eq!(BitcoinNetwork::from(4), BitcoinNetwork::BitcoinSimnet);
    assert_eq!(BitcoinNetwork::from(5), BitcoinNetwork::Bitcoin);
}

#[test]
fn test_bitcoin_transaction_data() {
    let tx = BitcoinTransactionData {
        sender: vec![1, 2, 3],
        recipient: vec![4, 5, 6],
        amount: 100,
        nonce: 1,
        network: BitcoinNetwork::Bitcoin,
        timestamp: 12345,
        metadata: vec![],
    };

    assert_eq!(tx.amount, 100);
    assert_eq!(tx.network, BitcoinNetwork::Bitcoin);
}

#[test]
fn test_bitcoin_account_data() {
    let account = BitcoinAccountData {
        address: vec![1, 2, 3],
        balance: 1000,
        nonce: 5,
        network: BitcoinNetwork::BitcoinTestnet,
    };

    assert_eq!(account.balance, 1000);
    assert_eq!(account.network, BitcoinNetwork::BitcoinTestnet);
}

#[test]
fn test_bitcoin_network() {
    assert_eq!(BitcoinNetwork::default(), BitcoinNetwork::Bitcoin);
    let network = BitcoinNetwork::BitcoinTestnet;
    assert_ne!(network, BitcoinNetwork::Bitcoin);
}

#[test]
fn network_names_and_ids_round_trip() {
    let all = [
        BitcoinNetwork::Bitcoin,
        BitcoinNetwork::BitcoinTestnet,
        BitcoinNetwork::BitcoinRegtest,
        BitcoinNetwork::BitcoinSignet,
        BitcoinNetwork::BitcoinSimnet,
    ];
    for n in all.iter() {
        assert_eq!(BitcoinNetwork::from(n.network_id()), *n);
    }
    assert_eq!(BitcoinNetwork::BitcoinTestnet.to_string(), "Bitcoin Testnet");
    assert_eq!(BitcoinNetwork::Bitcoin.to_string(), "Bitcoin");
    assert_eq!(BitcoinNetwork::BitcoinSimnet.to_string(), "Bitcoin Simnet");
}
