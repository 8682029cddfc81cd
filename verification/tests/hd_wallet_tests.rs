use overpass::hd_wallet::{get_public_key_secp256k1_hex, get_public_key_secp256k1_wif, KeyNetwork, WalletManager};

#[test]
fn test_derive_address() {
    let wallet_manager = WalletManager::new(KeyNetwork::Testnet);
    let (_, public_key) = wallet_manager.generate_keys().expect("Failed to generate keys");
    let address = wallet_manager.derive_address(&public_key);
    assert!(address.starts_with("tb1"));
}

#[test]
fn test_create_hd_wallet() {
    let wallet_manager = WalletManager::new(KeyNetwork::Testnet);
    let wallet = wallet_manager.create_hd_wallet("test_passphrase").expect("Failed to create HD wallet");
    assert!(!wallet.mnemonic.is_empty());
}

#[test]
fn test_restore_hd_wallet() {
    let wallet_manager = WalletManager::new(KeyNetwork::Testnet);
    let wallet = wallet_manager.create_hd_wallet("test_passphrase").expect("Failed to create HD wallet");
    let restored_wallet =
        wallet_manager.restore_hd_wallet(&wallet.mnemonic, "test_passphrase").expect("Failed to restore HD wallet");
    assert_eq!(wallet.xpriv, restored_wallet.xpriv);
}

#[test]
fn test_derive_hd_address() {
    let wallet_manager = WalletManager::new(KeyNetwork::Testnet);
    let wallet = wallet_manager.create_hd_wallet("test_passphrase").expect("Failed to create HD wallet");
    let derivation_path = "m/44'/1'/0'/0/0";
    let (_, _, address) =
        wallet_manager.derive_hd_address(&wallet.xpriv, derivation_path).expect("Failed to derive HD address");
    assert!(address.starts_with("tb1"));
}

#[test]
fn generated_secret_gives_its_public_key() {
    let wallet_manager = WalletManager::new(KeyNetwork::Regtest);
    let (secret, public) = wallet_manager.generate_keys().unwrap();
    let sk = secp256k1::SecretKey::from_slice(&secret).unwrap();
    let pk = secp256k1::PublicKey::from_secret_key(&secp256k1::Secp256k1::new(), &sk);
    assert_eq!(pk.serialize(), public);
    assert_ne!(secret, [0u8; 32]);
}

#[test]
fn known_mnemonic_restores_known_keys() {
    let phrase = "abandon abandon abandon abandon abandon abandon abandon abandon abandon abandon abandon about";
    let m = WalletManager::new(KeyNetwork::Bitcoin);
    let w = m.restore_hd_wallet(phrase, "").unwrap();
    let seed = bip39::Mnemonic::parse(phrase).unwrap().to_seed("");
    let xpriv = bitcoin::bip32::Xpriv::new_master(bitcoin::Network::Bitcoin, &seed).unwrap();
    assert_eq!(w.xpriv, xpriv.encode());
    assert!(m.restore_hd_wallet("not a mnemonic", "").is_err());
    assert!(m.derive_hd_address(&w.xpriv, "not/a/path").is_err());
    let (child, _, address) = m.derive_hd_address(&w.xpriv, "m/84'/0'/0'/0/0").unwrap();
    assert_ne!(child, w.xpriv);
    assert_eq!(address, "bc1qcr8te4kr609gcawutmrza0j4xv80jy8z306fyu");
}

#[test]
fn p2pkh_address_of_secret() {
    let mut secret = [0u8; 32];
    secret[31] = 1;
    let address = get_public_key_secp256k1_wif(&secret);
    assert_eq!(address, "1BgGZ9tcN4rm9KBzDn7KprQz87SZ26SAMH");
    assert_eq!(get_public_key_secp256k1_hex(&secret), hex::encode(address.as_bytes()));
}
