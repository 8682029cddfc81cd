use overpass::bitcoin_types::BitcoinNetwork;
use overpass::currency::{Bitcoin, DispatchError, NativeCurrency};
use overpass::errors::{SystemError, SystemErrorType};
use overpass::node_config::StorageNodeConfig;
use overpass::node_types::{AuditInterface, VerificationError};
use overpass::token_types::{Curve, HashType, NetworkType, Token, TokenType, WalletType};

struct TestCurrency;

impl NativeCurrency for TestCurrency {
    fn deposit_creating(_who: u64, _amount: u128) {}
    fn withdraw(_who: u64, _amount: u128) -> Result<(), DispatchError> {
        Ok(())
    }
    fn can_slash(_who: u64, _amount: u128) -> bool {
        true
    }
    fn slash(_who: u64, amount: u128) -> u128 {
        amount
    }
    fn total_balance(_who: u64) -> u128 {
        0
    }
    fn transfer(_from: u64, _to: u64, _amount: u128) -> Result<(), DispatchError> {
        Ok(())
    }
}

#[test]
fn bitcoin_integration_test_bitcoin_operations() {
    let _bitcoin = Bitcoin::new(BitcoinNetwork::Bitcoin);
    let account_id = 1_u64;
    let amount = 100_u128;
    assert!(Bitcoin::deposit::<TestCurrency>(BitcoinNetwork::Bitcoin, account_id, amount).is_ok());
    assert!(Bitcoin::withdraw::<TestCurrency>(BitcoinNetwork::Bitcoin, account_id, amount).is_ok());
    assert!(Bitcoin::deposit::<TestCurrency>(BitcoinNetwork::BitcoinTestnet, account_id, amount).is_err());
}

#[test]
fn slash_only_on_main_network() {
    let _bitcoin = Bitcoin::new(BitcoinNetwork::Bitcoin);
    assert_eq!(Bitcoin::slash::<TestCurrency>(BitcoinNetwork::Bitcoin, 1, 100), 100);
    assert_eq!(Bitcoin::slash::<TestCurrency>(BitcoinNetwork::BitcoinRegtest, 1, 100), 0);
    assert!(!Bitcoin::can_slash::<TestCurrency>(BitcoinNetwork::BitcoinSignet, 1, 100));
}

#[test]
fn global_root_from_stored_bytes() {
    assert_eq!(AuditInterface::query_global_root(None), [0u8; 32]);
    assert_eq!(AuditInterface::query_global_root(Some(vec![1u8; 31])), [0u8; 32]);
    assert_eq!(AuditInterface::query_global_root(Some(vec![5u8; 32])), [5u8; 32]);
}

#[test]
fn root_history_in_whole_chunks() {
    let mut bytes = vec![1u8; 32];
    bytes.extend_from_slice(&[2u8; 32]);
    bytes.extend_from_slice(&[3u8; 10]);
    let history = AuditInterface::query_root_history(Some(bytes));
    assert_eq!(history, vec![[1u8; 32], [2u8; 32]]);
    assert!(AuditInterface::query_root_history(None).is_empty());
}

#[test]
fn verification_error_from_system_error() {
    let e = SystemError::new(SystemErrorType::ConsistencyError, "diverged");
    assert!(matches!(VerificationError::from(e), VerificationError::ConsistencyError(m) if m == "diverged"));
    let e = SystemError::new(SystemErrorType::VerificationError, "bad proof");
    assert!(matches!(VerificationError::from(e), VerificationError::ZkpError(_)));
    let e = SystemError::new(SystemErrorType::NotFound, "x");
    assert!(matches!(VerificationError::from(e), VerificationError::StateError(_)));
}

#[test]
fn storage_node_config_defaults() {
    let c = StorageNodeConfig::new([4u8; 32], 9).unwrap();
    assert_eq!(c.node_id, [4u8; 32]);
    assert_eq!(c.fee, 9);
    assert!(c.whitelist.is_empty());
    assert_eq!(c.network_config.challenge_interval, 60_000);
    assert_eq!(c.sync_config.retry_timeout, 1000);
}

#[test]
fn token_holds_given_values() {
    let t = Token::generate_token(
        TokenType::Unspecified,
        WalletType::Unspecified,
        NetworkType::Unspecified,
        Curve::Unspecified,
        HashType::Unspecified,
        [1u8; 32],
        [2u8; 32],
        [3u8; 64],
        [4u8; 32],
        [5u8; 32],
        [6u8; 32],
        [7u8; 32],
        10,
        1,
        2,
        [8u8; 32],
        [9u8; 32],
        [10u8; 32],
        [11u8; 32],
    )
    .ok()
    .unwrap();
    assert_eq!(t.amount, 10);
    assert_eq!(t.recipient, [11u8; 32]);
    assert_eq!(t.signature, [3u8; 64]);
}
