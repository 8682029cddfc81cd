//! Overpass: payment-channel, storage-node and Bitcoin bookkeeping logic,
//! with each operation's behaviour stated as a contract and proved.

pub mod clock;
pub mod epoch;
pub mod hashing;
pub mod boc;
pub mod wasm_types;
pub mod bitcoin_types;
pub mod btc;
pub mod errors;
pub mod proof_types;
pub mod channel_state;
pub mod tx_builder;
pub mod wallet_extension;
pub mod channel_manager;
pub mod client_proofs;
pub mod wallet;
pub mod battery;
pub mod node_types;
pub mod token_types;
pub mod node_config;
pub mod lock_tx;
pub mod kv;
pub mod discovery;
pub mod propagation;
pub mod currency;
pub mod attest;
pub mod replication;
pub mod consistency;
pub mod zkp_slice;
pub mod hd_wallet;
pub mod peer_sync;
pub mod overlap;
pub mod state_store;
pub mod zkp_manager;
pub mod user;
pub mod byte_array;
pub mod state_converter;
pub mod monitor;
pub mod storage_manager;
pub mod script;
