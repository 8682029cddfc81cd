use vstd::prelude::*;

verus! {

/// The Bitcoin networks the integration knows.
#[derive(Debug, Clone, Copy, PartialEq, Eq, Structural)]
pub enum BitcoinNetwork {
    Bitcoin,
    BitcoinTestnet,
    BitcoinRegtest,
    BitcoinSignet,
    BitcoinSimnet,
}

/// Network number of the main network.
pub const BITCOIN_MAINNET: u8 = 0;
/// Network number of testnet.
pub const BITCOIN_TESTNET: u8 = 1;
/// Network number of regtest.
pub const BITCOIN_REGTEST: u8 = 2;
/// Network number of signet.
pub const BITCOIN_SIGNET: u8 = 3;
/// Network number of simnet.
pub const BITCOIN_SIMNET: u8 = 4;

/// The network a number stands for; unknown numbers stand for the main network.
pub open spec fn spec_network_from_id(network_id: u8) -> BitcoinNetwork {
    if network_id == BITCOIN_TESTNET {
        BitcoinNetwork::BitcoinTestnet
    } else if network_id == BITCOIN_REGTEST {
        BitcoinNetwork::BitcoinRegtest
    } else if network_id == BITCOIN_SIGNET {
        BitcoinNetwork::BitcoinSignet
    } else if network_id == BITCOIN_SIMNET {
        BitcoinNetwork::BitcoinSimnet
    } else {
        BitcoinNetwork::Bitcoin
    }
}

/// The number of a network.
pub open spec fn spec_network_id(n: BitcoinNetwork) -> u8 {
    match n {
        BitcoinNetwork::Bitcoin => BITCOIN_MAINNET,
        BitcoinNetwork::BitcoinTestnet => BITCOIN_TESTNET,
        BitcoinNetwork::BitcoinRegtest => BITCOIN_REGTEST,
        BitcoinNetwork::BitcoinSignet => BITCOIN_SIGNET,
        BitcoinNetwork::BitcoinSimnet => BITCOIN_SIMNET,
    }
}

/// The display name of a network.
pub open spec fn spec_network_name(n: BitcoinNetwork) -> Seq<char> {
    match n {
        BitcoinNetwork::Bitcoin => "Bitcoin"@,
        BitcoinNetwork::BitcoinTestnet => "Bitcoin Testnet"@,
        BitcoinNetwork::BitcoinRegtest => "Bitcoin Regtest"@,
        BitcoinNetwork::BitcoinSignet => "Bitcoin Signet"@,
        BitcoinNetwork::BitcoinSimnet => "Bitcoin Simnet"@,
    }
}

impl BitcoinNetwork {
    /// The display name of the network, such as "Bitcoin Testnet".
    pub fn to_string(&self) -> (r: String)
        ensures
            r@ == spec_network_name(*self),
    {
        match self {
            BitcoinNetwork::Bitcoin => "Bitcoin".to_owned(),
            BitcoinNetwork::BitcoinTestnet => "Bitcoin Testnet".to_owned(),
            BitcoinNetwork::BitcoinRegtest => "Bitcoin Regtest".to_owned(),
            BitcoinNetwork::BitcoinSignet => "Bitcoin Signet".to_owned(),
            BitcoinNetwork::BitcoinSimnet => "Bitcoin Simnet".to_owned(),
        }
    }

    /// The number of the network.
    pub fn network_id(&self) -> (r: u8)
        ensures
            r == spec_network_id(*self),
    {
        match self {
            BitcoinNetwork::Bitcoin => BITCOIN_MAINNET,
            BitcoinNetwork::BitcoinTestnet => BITCOIN_TESTNET,
            BitcoinNetwork::BitcoinRegtest => BITCOIN_REGTEST,
            BitcoinNetwork::BitcoinSignet => BITCOIN_SIGNET,
            BitcoinNetwork::BitcoinSimnet => BITCOIN_SIMNET,
        }
    }
}

impl Default for BitcoinNetwork {
    /// The main network.
    fn default() -> (r: Self)
        ensures
            r == BitcoinNetwork::Bitcoin,
    {
        BitcoinNetwork::Bitcoin
    }
}

impl From<u8> for BitcoinNetwork {
    /// Decodes a network number; unknown numbers give the main network.
    fn from(network_id: u8) -> (r: Self) {
        match network_id {
            0 => BitcoinNetwork::Bitcoin,
            1 => BitcoinNetwork::BitcoinTestnet,
            2 => BitcoinNetwork::BitcoinRegtest,
            3 => BitcoinNetwork::BitcoinSignet,
            4 => BitcoinNetwork::BitcoinSimnet,
            _ => BitcoinNetwork::Bitcoin,
        }
    }
}

impl vstd::std_specs::convert::FromSpecImpl<u8> for BitcoinNetwork {
    open spec fn obeys_from_spec() -> bool {
        true
    }

    open spec fn from_spec(v: u8) -> BitcoinNetwork {
        spec_network_from_id(v)
    }
}

/// Every network's number decodes back to that network.
pub proof fn lemma_network_id_round_trip(n: BitcoinNetwork)
    ensures
        spec_network_from_id(spec_network_id(n)) == n,
{
}

/// A transfer of bitcoin between two accounts.
#[derive(Clone, Debug, PartialEq, Eq)]
pub struct BitcoinTransactionData {
    pub sender: Vec<u8>,
    pub recipient: Vec<u8>,
    pub amount: u64,
    pub nonce: u64,
    pub network: BitcoinNetwork,
    pub timestamp: u64,
    pub metadata: Vec<u8>,
}

/// An account on a Bitcoin network.
#[derive(Clone, Debug, PartialEq, Eq)]
pub struct BitcoinAccountData {
    pub address: Vec<u8>,
    pub balance: u64,
    pub nonce: u64,
    pub network: BitcoinNetwork,
}

/// Errors of Bitcoin operations, each with a message.
#[derive(Debug)]
pub enum BitcoinError {
    InsufficientBalance(String),
    InvalidNetwork(String),
    InvalidTransaction(String),
    InvalidAccount(String),
    ProofVerificationFailed(String),
}

/// Balance types usable for bitcoin amounts.
pub trait BitcoinBalance: Sized {
    fn zero() -> Self;

    fn max_value() -> Self;

    fn is_zero(&self) -> bool;
}

impl BitcoinBalance for u32 {
    fn zero() -> (r: Self)
        ensures
            r == 0,
    {
        0
    }

    fn max_value() -> (r: Self)
        ensures
            r == u32::MAX,
    {
        u32::MAX
    }

    fn is_zero(&self) -> (r: bool)
        ensures
            r == (*self == 0),
    {
        *self == 0
    }
}

impl BitcoinBalance for u64 {
    fn zero() -> (r: Self)
        ensures
            r == 0,
    {
        0
    }

    fn max_value() -> (r: Self)
        ensures
            r == u64::MAX,
    {
        u64::MAX
    }

    fn is_zero(&self) -> (r: bool)
        ensures
            r == (*self == 0),
    {
        *self == 0
    }
}

impl BitcoinBalance for u128 {
    fn zero() -> (r: Self)
        ensures
            r == 0,
    {
        0
    }

    fn max_value() -> (r: Self)
        ensures
            r == u128::MAX,
    {
        u128::MAX
    }

    fn is_zero(&self) -> (r: bool)
        ensures
            r == (*self == 0),
    {
        *self == 0
    }
}

} // verus!
