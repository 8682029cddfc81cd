use vstd::prelude::*;

use crate::boc::zero_bytes32;

verus! {

/// Transaction ids recorded for a channel.
#[derive(Clone, Copy, Debug)]
pub struct ChannelMetadata {
    pub closure_txid: Option<[u8; 32]>,
}

/// The state of a payment channel as the client tracks it.
#[derive(Clone, Copy, Debug)]
pub struct BitcoinChannelState {
    pub channel_id: [u8; 32],
    pub balance: u64,
    pub sequence: u64,
    pub block_height: u32,
    pub merkle_root: [u8; 32],
    pub metadata: ChannelMetadata,
}

impl BitcoinChannelState {
    /// A channel state at sequence 0 with a zero Merkle root and no closure
    /// transaction yet.
    pub fn new(channel_id: [u8; 32], balance: u64, block_height: u32) -> (r: Self)
        ensures
            r.channel_id == channel_id,
            r.balance == balance,
            r.block_height == block_height,
            r.sequence == 0,
            r.merkle_root@ == crate::boc::zero_hash(),
            r.metadata.closure_txid is None,
    {
        BitcoinChannelState {
            channel_id,
            balance,
            sequence: 0,
            block_height,
            merkle_root: zero_bytes32(),
            metadata: ChannelMetadata { closure_txid: None },
        }
    }
}

/// The life cycle of a hashed time-locked contract.
#[derive(Clone, Copy, Debug, PartialEq, Eq, Structural)]
pub enum HTLCStatus {
    Pending,
    Executed,
    Refunded,
    Expired,
}

/// A hashed time-locked contract: `amount` is released to the recipient on
/// the preimage of `preimage_hash`, or refunded after block `timelock`.
/// Public keys are compressed secp256k1 keys.
#[derive(Clone, Debug)]
pub struct HTLCState {
    pub status: HTLCStatus,
    pub amount: u64,
    pub timelock: u32,
    pub preimage_hash: Option<[u8; 32]>,
    pub preimage: Option<[u8; 32]>,
    pub recipient_pubkey: Option<[u8; 33]>,
    pub refund_pubkey: Option<[u8; 33]>,
    pub signature: Option<Vec<u8>>,
    pub execution_txid: Option<[u8; 32]>,
}

} // verus!
