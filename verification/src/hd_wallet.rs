use vstd::prelude::*;

use crate::btc::{public_key_of, spec_public_key, spec_valid_public_key};

verus! {

/// The Bitcoin networks keys and addresses are made for.
#[derive(Clone, Copy, Debug, PartialEq, Eq, Structural)]
pub enum KeyNetwork {
    Bitcoin,
    Testnet,
    Testnet4,
    Signet,
    Regtest,
}

impl KeyNetwork {
    /// A number for each network, in the order of the variants.
    pub open spec fn code(self) -> u8 {
        match self {
            KeyNetwork::Bitcoin => 0,
            KeyNetwork::Testnet => 1,
            KeyNetwork::Testnet4 => 2,
            KeyNetwork::Signet => 3,
            KeyNetwork::Regtest => 4,
        }
    }
}

/// Whether a phrase is a valid English BIP-39 mnemonic.
pub uninterp spec fn spec_bip39_valid(phrase: Seq<char>) -> bool;

/// The 64-byte BIP-39 seed of a mnemonic phrase and a passphrase.
pub uninterp spec fn spec_bip39_seed(phrase: Seq<char>, passphrase: Seq<char>) -> Seq<u8>;

/// The 78-byte encoding of the BIP-32 master private key of a seed on a
/// network, or `None` when the seed gives no valid key.
pub uninterp spec fn spec_master_xpriv(seed: Seq<u8>, network: u8) -> Option<Seq<u8>>;

/// The 78-byte encoding of the extended public key of an encoded extended
/// private key, or `None` when the bytes do not decode.
pub uninterp spec fn spec_xpub_of(xpriv: Seq<u8>) -> Option<Seq<u8>>;

/// The encoded extended private key derived from an encoded one along a
/// textual derivation path, or `None` when the key or path does not parse or
/// derivation fails.
pub uninterp spec fn spec_derive_xpriv(xpriv: Seq<u8>, path: Seq<char>) -> Option<Seq<u8>>;

/// The compressed public key held in an encoded extended public key, or
/// `None` when the bytes do not decode.
pub uninterp spec fn spec_xpub_key(xpub: Seq<u8>) -> Option<Seq<u8>>;

/// The pay-to-witness-public-key-hash address text of a public key on a
/// network.
pub uninterp spec fn spec_p2wpkh_address(pubkey: Seq<u8>, network: u8) -> Seq<char>;

/// The pay-to-public-key-hash main-network address text of a public key.
pub uninterp spec fn spec_p2pkh_address(pubkey: Seq<u8>) -> Seq<char>;

/// Calls `bitcoin::Address::p2pkh` for the main network on the key and
/// renders the address.
/// Claimed: the text is named `spec_p2pkh_address` of the key.
#[verifier::external_body]
fn p2pkh_address(pubkey: &[u8; 33]) -> (r: String)
    requires
        spec_valid_public_key(pubkey@),
    ensures
        r@ == spec_p2pkh_address(pubkey@),
{
    match bitcoin::PublicKey::from_slice(pubkey) {
        Ok(k) => bitcoin::Address::p2pkh(k, bitcoin::Network::Bitcoin).to_string(),
        Err(_) => String::new(),
    }
}

/// Calls `bip39::Mnemonic::generate_in` for twelve English words and renders
/// the mnemonic as text.
/// Claimed: a phrase comes back (the call refuses only word counts other
/// than 12, 15, 18, 21 or 24), and it is a valid English mnemonic (its words
/// parse again); which phrase comes back rests on chance.
#[verifier::external_body]
fn generate_mnemonic() -> (r: Option<String>)
    ensures
        r is Some,
        r matches Some(p) ==> spec_bip39_valid(p@),
{
    match bip39::Mnemonic::generate_in(bip39::Language::English, 12) {
        Ok(m) => Some(m.to_string()),
        Err(_) => None,
    }
}

/// Calls `bip39::Mnemonic::parse_in` (English) on the phrase and then
/// `Mnemonic::to_seed` with the passphrase.
/// Claimed: `None` exactly when the phrase does not parse (named
/// `spec_bip39_valid`); otherwise the seed, a function of phrase and
/// passphrase (named `spec_bip39_seed`).
#[verifier::external_body]
fn bip39_seed(phrase: &str, passphrase: &str) -> (r: Option<[u8; 64]>)
    ensures
        r is Some <==> spec_bip39_valid(phrase@),
        r matches Some(s) ==> s@ == spec_bip39_seed(phrase@, passphrase@),
{
    match bip39::Mnemonic::parse_in(bip39::Language::English, phrase) {
        Ok(m) => Some(m.to_seed(passphrase)),
        Err(_) => None,
    }
}

/// Calls `bitcoin::bip32::Xpriv::new_master` and encodes the key.
/// Claimed: the result is named `spec_master_xpriv` of the seed and network.
#[verifier::external_body]
fn master_xpriv(seed: &[u8; 64], network: KeyNetwork) -> (r: Option<[u8; 78]>)
    ensures
        spec_master_xpriv(seed@, network.code()) == match r {
            Some(k) => Some(k@),
            None => None::<Seq<u8>>,
        },
{
    let net = match network {
        KeyNetwork::Bitcoin => bitcoin::Network::Bitcoin,
        KeyNetwork::Testnet => bitcoin::Network::Testnet,
        KeyNetwork::Testnet4 => bitcoin::Network::Testnet4,
        KeyNetwork::Signet => bitcoin::Network::Signet,
        KeyNetwork::Regtest => bitcoin::Network::Regtest,
    };
    match bitcoin::bip32::Xpriv::new_master(net, seed) {
        Ok(k) => Some(k.encode()),
        Err(_) => None,
    }
}

/// Decodes an extended private key, calls `bitcoin::bip32::Xpub::from_priv`
/// and encodes the result.
/// Claimed: the result is named `spec_xpub_of` of the key bytes.
#[verifier::external_body]
fn xpub_of(xpriv: &[u8; 78]) -> (r: Option<[u8; 78]>)
    ensures
        spec_xpub_of(xpriv@) == match r {
            Some(k) => Some(k@),
            None => None::<Seq<u8>>,
        },
{
    match bitcoin::bip32::Xpriv::decode(xpriv) {
        Ok(k) => Some(bitcoin::bip32::Xpub::from_priv(&bitcoin::secp256k1::Secp256k1::signing_only(), &k).encode()),
        Err(_) => None,
    }
}

/// Decodes an extended private key, parses the path with
/// `bitcoin::bip32::DerivationPath::from_str`, calls `Xpriv::derive_priv` and
/// encodes the result.
/// Claimed: the result is named `spec_derive_xpriv` of the key bytes and path.
#[verifier::external_body]
fn derive_xpriv(xpriv: &[u8; 78], path: &str) -> (r: Option<[u8; 78]>)
    ensures
        spec_derive_xpriv(xpriv@, path@) == match r {
            Some(k) => Some(k@),
            None => None::<Seq<u8>>,
        },
{
    let key = match bitcoin::bip32::Xpriv::decode(xpriv) {
        Ok(k) => k,
        Err(_) => return None,
    };
    let parsed = match <bitcoin::bip32::DerivationPath as std::str::FromStr>::from_str(path) {
        Ok(p) => p,
        Err(_) => return None,
    };
    match key.derive_priv(&bitcoin::secp256k1::Secp256k1::signing_only(), &parsed) {
        Ok(child) => Some(child.encode()),
        Err(_) => None,
    }
}

/// Calls `bitcoin::bip32::Xpub::decode` and serializes its public key.
/// Claimed: the result is named `spec_xpub_key` of the bytes; a key that
/// comes back is a valid public key.
#[verifier::external_body]
fn xpub_key(xpub: &[u8; 78]) -> (r: Option<[u8; 33]>)
    ensures
        spec_xpub_key(xpub@) == match r {
            Some(k) => Some(k@),
            None => None::<Seq<u8>>,
        },
        r matches Some(k) ==> spec_valid_public_key(k@),
{
    match bitcoin::bip32::Xpub::decode(xpub) {
        Ok(k) => Some(k.public_key.serialize()),
        Err(_) => None,
    }
}

/// Calls `bitcoin::Address::p2wpkh` on the key and renders the address.
/// Claimed: the text is named `spec_p2wpkh_address` of key and network.
#[verifier::external_body]
fn p2wpkh_address(pubkey: &[u8; 33], network: KeyNetwork) -> (r: String)
    requires
        spec_valid_public_key(pubkey@),
    ensures
        r@ == spec_p2wpkh_address(pubkey@, network.code()),
{
    let net = match network {
        KeyNetwork::Bitcoin => bitcoin::Network::Bitcoin,
        KeyNetwork::Testnet => bitcoin::Network::Testnet,
        KeyNetwork::Testnet4 => bitcoin::Network::Testnet4,
        KeyNetwork::Signet => bitcoin::Network::Signet,
        KeyNetwork::Regtest => bitcoin::Network::Regtest,
    };
    match bitcoin::CompressedPublicKey::from_slice(pubkey) {
        Ok(k) => bitcoin::Address::p2wpkh(&k, net).to_string(),
        Err(_) => String::new(),
    }
}

/// Draws a secret key with `secp256k1::SecretKey::new` from the operating
/// system's random source.
/// Claimed: the bytes are a valid secret key (they have a public key);
/// which key comes back rests on chance.
#[verifier::external_body]
fn random_secret_key() -> (r: [u8; 32])
    ensures
        spec_public_key(r@) is Some,
{
    secp256k1::SecretKey::new(&mut rand::rngs::OsRng).secret_bytes()
}

/// An HD wallet: its mnemonic and its encoded master keys.
#[derive(Clone, Debug)]
pub struct Wallet {
    pub mnemonic: String,
    pub xpriv: [u8; 78],
    pub xpub: [u8; 78],
}

/// The wallet a phrase and passphrase give on a network, when every step
/// succeeds.
pub open spec fn spec_wallet_keys(phrase: Seq<char>, passphrase: Seq<char>, network: u8) -> Option<(Seq<u8>, Seq<u8>)> {
    if !spec_bip39_valid(phrase) {
        None
    } else {
        match spec_master_xpriv(spec_bip39_seed(phrase, passphrase), network) {
            None => None,
            Some(xpriv) => match spec_xpub_of(xpriv) {
                None => None,
                Some(xpub) => Some((xpriv, xpub)),
            },
        }
    }
}

/// What restoring a wallet from a phrase and passphrase gives: refused when
/// the keys cannot be made; otherwise the wallet with that phrase and keys.
pub open spec fn restore_outcome(phrase: Seq<char>, passphrase: Seq<char>, network: u8, r: Result<Wallet, String>) -> bool {
    match spec_wallet_keys(phrase, passphrase, network) {
        None => r is Err,
        Some(keys) => r matches Ok(w) && w.mnemonic@ == phrase && w.xpriv@ == keys.0 && w.xpub@ == keys.1,
    }
}

/// Makes keys, addresses and HD wallets for one network.
pub struct WalletManager {
    pub network: KeyNetwork,
}

impl WalletManager {
    /// A manager for `network`.
    pub fn new(network: KeyNetwork) -> (r: Self)
        ensures
            r.network == network,
    {
        WalletManager { network }
    }

    /// A fresh key pair: a random secret and its compressed public key.
    pub fn generate_keys(&self) -> (r: Result<([u8; 32], [u8; 33]), String>)
        ensures
            r matches Ok((s, p)) && spec_public_key(s@) == Some(p@) && spec_valid_public_key(p@),
    {
        let secret = random_secret_key();
        match public_key_of(&secret) {
            Some(p) => Ok((secret, p)),
            None => Err("Failed to generate keys".to_owned()),
        }
    }

    /// The pay-to-witness-public-key-hash address of a public key.
    pub fn derive_address(&self, public_key: &[u8; 33]) -> (r: String)
        requires
            spec_valid_public_key(public_key@),
        ensures
            r@ == spec_p2wpkh_address(public_key@, self.network.code()),
    {
        p2wpkh_address(public_key, self.network)
    }

    /// The wallet of a phrase and passphrase, refused when the phrase is not
    /// a valid mnemonic or the keys cannot be made.
    pub fn restore_hd_wallet(&self, mnemonic_phrase: &str, passphrase: &str) -> (r: Result<Wallet, String>)
        ensures
            restore_outcome(mnemonic_phrase@, passphrase@, self.network.code(), r),
    {
        let seed = match bip39_seed(mnemonic_phrase, passphrase) {
            Some(s) => s,
            None => {
                return Err("Invalid mnemonic".to_owned());
            },
        };
        let xpriv = match master_xpriv(&seed, self.network) {
            Some(k) => k,
            None => {
                return Err("Invalid seed".to_owned());
            },
        };
        let xpub = match xpub_of(&xpriv) {
            Some(k) => k,
            None => {
                return Err("Invalid extended key".to_owned());
            },
        };
        Ok(Wallet { mnemonic: mnemonic_phrase.to_string(), xpriv, xpub })
    }

    /// A new wallet from twelve random English words and the passphrase:
    /// what `restore_hd_wallet` gives for that valid mnemonic, so refused
    /// only when its keys cannot be made.
    pub fn create_hd_wallet(&self, passphrase: &str) -> (r: Result<Wallet, String>)
        ensures
            exists|phrase: Seq<char>| #[trigger] spec_bip39_valid(phrase)
                && restore_outcome(phrase, passphrase@, self.network.code(), r),
            r matches Ok(w) ==> spec_wallet_keys(w.mnemonic@, passphrase@, self.network.code()) == Some(
                (w.xpriv@, w.xpub@),
            ),
    {
        let phrase = match generate_mnemonic() {
            Some(p) => p,
            None => {
                return Err("Failed to generate mnemonic".to_owned());
            },
        };
        let r = self.restore_hd_wallet(phrase.as_str(), passphrase);
        assert(spec_bip39_valid(phrase@));
        r
    }

    /// A child key along a derivation path, with its extended public key
    /// and address; refused when the key or path does not parse or a step
    /// fails.
    pub fn derive_hd_address(&self, xpriv: &[u8; 78], derivation_path: &str) -> (r: Result<
        ([u8; 78], [u8; 78], String),
        String,
    >)
        ensures
            r matches Ok((child, child_pub, address)) ==> {
                &&& spec_derive_xpriv(xpriv@, derivation_path@) == Some(child@)
                &&& spec_xpub_of(child@) == Some(child_pub@)
                &&& spec_xpub_key(child_pub@) matches Some(k) && address@ == spec_p2wpkh_address(k, self.network.code())
            },
            r is Err ==> {
                ||| spec_derive_xpriv(xpriv@, derivation_path@) is None
                ||| spec_xpub_of(spec_derive_xpriv(xpriv@, derivation_path@)->0) is None
                ||| spec_xpub_key(spec_xpub_of(spec_derive_xpriv(xpriv@, derivation_path@)->0)->0) is None
            },
    {
        let child = match derive_xpriv(xpriv, derivation_path) {
            Some(k) => k,
            None => {
                return Err("Failed to derive key".to_owned());
            },
        };
        let child_pub = match xpub_of(&child) {
            Some(k) => k,
            None => {
                return Err("Failed to derive public key".to_owned());
            },
        };
        let key = match xpub_key(&child_pub) {
            Some(k) => k,
            None => {
                return Err("Failed to read public key".to_owned());
            },
        };
        let address = self.derive_address(&key);
        Ok((child, child_pub, address))
    }
}

/// A created wallet is restored by its mnemonic and passphrase: restoring
/// gives back the same phrase and keys.
pub proof fn lemma_created_wallet_restores(w: Wallet, passphrase: Seq<char>, network: u8, r: Result<Wallet, String>)
    requires
        spec_wallet_keys(w.mnemonic@, passphrase, network) == Some((w.xpriv@, w.xpub@)),
        restore_outcome(w.mnemonic@, passphrase, network, r),
    ensures
        r matches Ok(w2) && w2.mnemonic@ == w.mnemonic@ && w2.xpriv == w.xpriv && w2.xpub == w.xpub,
{
    let w2 = r->Ok_0;
    assert(w2.xpriv =~= w.xpriv) by {
        assert forall|i: int| 0 <= i < 78 implies w2.xpriv[i] == w.xpriv[i] by {
            assert(w2.xpriv@[i] == w.xpriv@[i]);
        }
    }
    assert(w2.xpub =~= w.xpub) by {
        assert forall|i: int| 0 <= i < 78 implies w2.xpub[i] == w.xpub[i] by {
            assert(w2.xpub@[i] == w.xpub@[i]);
        }
    }
}

/// The main-network pay-to-public-key-hash address of a secret key's public
/// key; empty text for bytes that are no secret key.
pub fn get_public_key_secp256k1_wif(secret_key: &[u8; 32]) -> (r: String)
    ensures
        spec_public_key(secret_key@) matches Some(pk) ==> r@ == spec_p2pkh_address(pk),
        spec_public_key(secret_key@) is None ==> r@.len() == 0,
{
    match public_key_of(secret_key) {
        Some(pk) => p2pkh_address(&pk),
        None => String::new(),
    }
}

/// The same address as `get_public_key_secp256k1_wif`, its text's bytes in
/// lowercase hexadecimal.
pub fn get_public_key_secp256k1_hex(secret_key: &[u8; 32]) -> (r: String)
    ensures
        spec_public_key(secret_key@) matches Some(pk) ==> r@ == crate::proof_types::spec_hex_lower(
            vstd::utf8::encode_utf8(spec_p2pkh_address(pk)),
        ),
        spec_public_key(secret_key@) is None ==> r@.len() == 0,
{
    let address = get_public_key_secp256k1_wif(secret_key);
    let r = crate::proof_types::hex_encode(address.as_str().as_bytes());
    proof {
        if spec_public_key(secret_key@) is None {
            assert(address@ =~= Seq::<char>::empty());
            assert(vstd::utf8::encode_utf8(address@) =~= Seq::<u8>::empty());
        }
    }
    r
}

} // verus!
