use vstd::prelude::*;

use crate::bitcoin_types::BitcoinNetwork;
use crate::btc::{
    bytes33_eq, copy_transaction, is_valid_public_key, random_public_key, spec_valid_public_key, unsigned_input,
    OutPoint, Tx, TxInput, TxOutput, FINAL_SEQUENCE,
};
use crate::hashing::{append_bytes, sha256d_digest, spec_sha256d};
use crate::script::{
    append_push, push_int_bytes, spec_push_bytes, spec_push_int, OP_CHECKSIG, OP_CHECKSIGVERIFY, OP_CLTV, OP_CSV,
    OP_DROP, OP_DUP, OP_ELSE, OP_ENDIF, OP_EQUAL, OP_HASH160, OP_IF,
};
use crate::wallet_extension::BitcoinChannelConfig;

verus! {

/// Which way an HTLC pays.
#[derive(Clone, Copy, Debug, PartialEq, Eq, Structural)]
pub enum HTLCDirection {
    Offered,
    Received,
}

/// Where an HTLC is in the commitment protocol.
#[derive(Clone, Copy, Debug, PartialEq, Eq, Structural)]
pub enum HTLCState {
    Pending,
    Committed,
    Revoked,
    Failed,
}

/// A hashed time-locked contract carried by a channel.
#[derive(Clone, Copy, Debug)]
pub struct HTLC {
    pub amount_msat: u64,
    pub payment_hash: [u8; 32],
    pub cltv_expiry: u32,
    pub direction: HTLCDirection,
    pub state: HTLCState,
}

/// The balances, commitments and keys of one channel. Keys are compressed
/// secp256k1 public keys; the counterparty's are unknown until it sends them.
#[derive(Clone, Debug)]
pub struct BitcoinChannelState {
    pub balance_msat: u64,
    pub commit_num: u64,
    pub funding_txid: [u8; 32],
    pub funding_output_index: u32,
    pub funding_amount: u64,
    pub our_reserve_balance: u64,
    pub their_reserve_balance: u64,
    pub pending_htlcs: Vec<HTLC>,
    pub commitment_tx: Option<Tx>,
    pub revocation_basepoint: [u8; 33],
    pub payment_basepoint: [u8; 33],
    pub delayed_payment_basepoint: [u8; 33],
    pub htlc_basepoint: [u8; 33],
    pub remote_revocation_basepoint: Option<[u8; 33]>,
    pub remote_delayed_payment_basepoint: Option<[u8; 33]>,
    pub remote_htlc_basepoint: Option<[u8; 33]>,
}

/// The life cycle of a channel.
#[derive(Clone, Copy, Debug, PartialEq, Eq, Structural)]
pub enum ChannelStatus {
    Opening,
    Active,
    Closing,
    ForceClosing,
    Closed,
}

/// A change proposed to a channel.
#[derive(Clone, Debug)]
pub enum ChannelUpdate {
    AddHTLC(HTLC),
    FulfillHTLC { htlc_id: u64, payment_preimage: [u8; 32] },
    FailHTLC { htlc_id: u64, reason: Vec<u8> },
    CommitmentSigned { commitment_tx: Tx, htlc_signatures: Vec<Vec<u8>> },
}

/// A payment channel held by the manager.
#[derive(Clone, Debug)]
pub struct BitcoinChannel {
    pub channel_id: [u8; 32],
    pub state: BitcoinChannelState,
    pub config: BitcoinChannelConfig,
    pub status: ChannelStatus,
    pub funding_tx: Option<Tx>,
    pub latest_commitment_tx: Option<Tx>,
    pub revocation_keys: Vec<[u8; 32]>,
    pub pending_updates: Vec<ChannelUpdate>,
}

/// The four basepoints a counterparty announces.
#[derive(Clone, Copy, Debug)]
pub struct ChannelBasepoints {
    pub revocation: [u8; 33],
    pub payment: [u8; 33],
    pub delayed_payment: [u8; 33],
    pub htlc: [u8; 33],
}

/// Why a channel operation was refused.
#[derive(Clone, Copy, Debug, PartialEq, Eq, Structural)]
pub enum ChannelManagerError {
    FundingTooLow,
    PushTooHigh,
    ChannelNotFound,
    NotOpening,
    InvalidBasepoints,
    NotActive,
    NoCommitmentTransaction,
    MissingRemoteBasepoint,
}

/// The channels of a list, by id; a later entry for an id hides an earlier one.
pub open spec fn channel_map(s: Seq<BitcoinChannel>) -> Map<[u8; 32], BitcoinChannel>
    decreases s.len(),
{
    if s.len() == 0 {
        Map::empty()
    } else {
        channel_map(s.drop_last()).insert(s.last().channel_id, s.last())
    }
}

/// No two entries of the list share an id.
pub open spec fn distinct_ids(s: Seq<BitcoinChannel>) -> bool {
    forall|i: int, j: int| 0 <= i < s.len() && 0 <= j < s.len() && i != j ==> s[i].channel_id != s[j].channel_id
}

/// The channel's own balance never exceeds what funded it.
pub open spec fn channel_balanced(c: BitcoinChannel) -> bool {
    c.state.balance_msat <= c.state.funding_amount * 1000
}

/// Each channel is held once and is balanced.
pub open spec fn channels_wf(s: Seq<BitcoinChannel>) -> bool {
    &&& distinct_ids(s)
    &&& forall|i: int| 0 <= i < s.len() ==> channel_balanced(#[trigger] s[i])
}

/// The id of the channel opened with `counterparty` for `funding` satoshis:
/// double SHA-256 of the key and the amount's little-endian bytes.
pub open spec fn spec_channel_id(counterparty: Seq<u8>, funding: u64) -> Seq<u8> {
    spec_sha256d(counterparty + vstd::bytes::spec_u64_to_le_bytes(funding))
}

/// `ch` is the channel `open_channel` creates.
pub open spec fn opened_channel(
    ch: BitcoinChannel,
    id: [u8; 32],
    funding: u64,
    push_msat: u64,
    config: BitcoinChannelConfig,
) -> bool {
    &&& ch.channel_id == id
    &&& ch.status == ChannelStatus::Opening
    &&& ch.config == config
    &&& ch.state.balance_msat == funding * 1000 - push_msat
    &&& ch.state.commit_num == 0
    &&& ch.state.funding_txid@ == crate::boc::zero_hash()
    &&& ch.state.funding_output_index == 0
    &&& ch.state.funding_amount == funding
    &&& ch.state.our_reserve_balance == config.channel_reserve_satoshis
    &&& ch.state.their_reserve_balance == config.channel_reserve_satoshis
    &&& ch.state.pending_htlcs@.len() == 0
    &&& ch.state.commitment_tx is None
    &&& spec_valid_public_key(ch.state.revocation_basepoint@)
    &&& spec_valid_public_key(ch.state.payment_basepoint@)
    &&& spec_valid_public_key(ch.state.delayed_payment_basepoint@)
    &&& spec_valid_public_key(ch.state.htlc_basepoint@)
    &&& ch.state.remote_revocation_basepoint is None
    &&& ch.state.remote_delayed_payment_basepoint is None
    &&& ch.state.remote_htlc_basepoint is None
    &&& ch.funding_tx is None
    &&& ch.latest_commitment_tx is None
    &&& ch.revocation_keys@.len() == 0
    &&& ch.pending_updates@.len() == 0
}

/// Basepoints are acceptable when each is a valid public key and no two are
/// the same.
pub open spec fn spec_valid_basepoints(b: ChannelBasepoints) -> bool {
    &&& spec_valid_public_key(b.payment@)
    &&& spec_valid_public_key(b.delayed_payment@)
    &&& spec_valid_public_key(b.htlc@)
    &&& spec_valid_public_key(b.revocation@)
    &&& b.payment != b.delayed_payment
    &&& b.payment != b.htlc
    &&& b.payment != b.revocation
    &&& b.delayed_payment != b.htlc
    &&& b.delayed_payment != b.revocation
    &&& b.htlc != b.revocation
}

/// The channel with another status.
pub open spec fn with_status(ch: BitcoinChannel, status: ChannelStatus) -> BitcoinChannel {
    BitcoinChannel { status, ..ch }
}

/// Manages the payment channels of one node.
pub struct BitcoinChannelManager {
    network: BitcoinNetwork,
    channels: Vec<BitcoinChannel>,
    config: BitcoinChannelConfig,
}

impl BitcoinChannelManager {
    /// The channels, by id.
    pub closed spec fn channels(&self) -> Map<[u8; 32], BitcoinChannel> {
        channel_map(self.channels@)
    }

    /// The limits new channels get.
    pub closed spec fn config(&self) -> BitcoinChannelConfig {
        self.config
    }

    /// The network the channels live on.
    pub closed spec fn network(&self) -> BitcoinNetwork {
        self.network
    }

    /// Each channel is held once and is balanced.
    pub closed spec fn wf(&self) -> bool {
        channels_wf(self.channels@)
    }

    /// A manager with no channels.
    pub fn new(network: BitcoinNetwork, config: BitcoinChannelConfig) -> (r: Self)
        ensures
            r.wf(),
            r.channels() == Map::<[u8; 32], BitcoinChannel>::empty(),
            r.config() == config,
            r.network() == network,
    {
        BitcoinChannelManager { network, channels: Vec::new(), config }
    }

    /// The position of the channel with the given id, if there is one.
    fn find_channel(&self, channel_id: &[u8; 32]) -> (r: Option<usize>)
        requires
            self.wf(),
        ensures
            r is None <==> !self.channels().dom().contains(*channel_id),
            r matches Some(i) ==> i < self.channels@.len() && self.channels@[i as int].channel_id == *channel_id
                && self.channels()[*channel_id] == self.channels@[i as int],
    {
        let n = self.channels.len();
        for i in 0..n
            invariant
                n == self.channels@.len(),
                distinct_ids(self.channels@),
                forall|j: int| 0 <= j < i ==> self.channels@[j].channel_id != *channel_id,
        {
            if crate::btc::bytes32_eq(&self.channels[i].channel_id, channel_id) {
                proof { lemma_channel_map_at(self.channels@, i as int); }
                return Some(i);
            }
        }
        proof { lemma_channel_map_dom(self.channels@, *channel_id); }
        None
    }

    /// Replaces the channel at `i` with one of the same id.
    fn replace_channel(&mut self, i: usize, ch: BitcoinChannel)
        requires
            old(self).wf(),
            i < old(self).channels@.len(),
            ch.channel_id == old(self).channels@[i as int].channel_id,
            channel_balanced(ch),
        ensures
            final(self).wf(),
            final(self).channels() == old(self).channels().insert(ch.channel_id, ch),
            final(self).config() == old(self).config(),
            final(self).network() == old(self).network(),
    {
        proof { lemma_channel_map_update(self.channels@, i as int, ch); }
        self.channels.set(i, ch);
    }

    /// Takes the channel at `i` out of the list, to be put back with
    /// `restore_channel`.
    fn take_channel(&mut self, i: usize) -> (r: BitcoinChannel)
        requires
            i < old(self).channels@.len(),
        ensures
            r == old(self).channels@[i as int],
            final(self).channels@ == old(self).channels@.remove(i as int),
            final(self).config == old(self).config,
            final(self).network == old(self).network,
    {
        self.channels.remove(i)
    }

    /// Puts back at `i` a channel taken out with `take_channel`, with the id
    /// it had.
    fn restore_channel(&mut self, i: usize, ch: BitcoinChannel, Ghost(before): Ghost<Seq<BitcoinChannel>>)
        requires
            channels_wf(before),
            i < before.len(),
            old(self).channels@ == before.remove(i as int),
            ch.channel_id == before[i as int].channel_id,
            channel_balanced(ch),
        ensures
            final(self).wf(),
            final(self).channels() == channel_map(before).insert(ch.channel_id, ch),
            final(self).config == old(self).config,
            final(self).network == old(self).network,
    {
        self.channels.insert(i, ch);
        proof {
            assert(self.channels@ == before.update(i as int, ch));
            lemma_channel_map_update(before, i as int, ch);
        }
    }

    /// Adds a channel, or replaces the one with the same id.
    fn insert_channel(&mut self, ch: BitcoinChannel)
        requires
            old(self).wf(),
            channel_balanced(ch),
        ensures
            final(self).wf(),
            final(self).channels() == old(self).channels().insert(ch.channel_id, ch),
            final(self).config() == old(self).config(),
            final(self).network() == old(self).network(),
    {
        match self.find_channel(&ch.channel_id) {
            Some(i) => self.replace_channel(i, ch),
            None => {
                proof {
                    lemma_channel_map_dom(self.channels@, ch.channel_id);
                    assert(self.channels@.push(ch).drop_last() == self.channels@);
                }
                self.channels.push(ch);
            },
        }
    }

    /// Opens a channel with `counterparty_pubkey` funded with `funding_amount`
    /// satoshis, of which `push_amount_msat` millisatoshis go to the
    /// counterparty. The funding must cover twice the reserve and exceed the
    /// push. The channel starts in `Opening` with fresh basepoints; an
    /// existing channel with the same id is replaced.
    pub fn open_channel(
        &mut self,
        counterparty_pubkey: [u8; 33],
        funding_amount: u64,
        push_amount_msat: u64,
    ) -> (r: Result<[u8; 32], ChannelManagerError>)
        requires
            old(self).wf(),
            funding_amount >= 2 * old(self).config().channel_reserve_satoshis ==> funding_amount * 1000 <= u64::MAX,
        ensures
            final(self).wf(),
            final(self).config() == old(self).config(),
            final(self).network() == old(self).network(),
            funding_amount < 2 * old(self).config().channel_reserve_satoshis ==> r == Err::<[u8; 32], ChannelManagerError>(
                ChannelManagerError::FundingTooLow,
            ) && final(self).channels() == old(self).channels(),
            funding_amount >= 2 * old(self).config().channel_reserve_satoshis && push_amount_msat >= funding_amount * 1000
                ==> r == Err::<[u8; 32], ChannelManagerError>(ChannelManagerError::PushTooHigh)
                && final(self).channels() == old(self).channels(),
            funding_amount >= 2 * old(self).config().channel_reserve_satoshis && push_amount_msat < funding_amount * 1000
                ==> (r matches Ok(id) && {
                &&& id@ == spec_channel_id(counterparty_pubkey@, funding_amount)
                &&& final(self).channels() == old(self).channels().insert(id, final(self).channels()[id])
                &&& opened_channel(final(self).channels()[id], id, funding_amount, push_amount_msat, old(self).config())
            }),
    {
        let reserve = self.config.channel_reserve_satoshis;
        if reserve > u64::MAX / 2 || funding_amount < reserve * 2 {
            return Err(ChannelManagerError::FundingTooLow);
        }
        let funding_msat = funding_amount * 1000;
        if push_amount_msat >= funding_msat {
            return Err(ChannelManagerError::PushTooHigh);
        }
        let mut preimage: Vec<u8> = Vec::new();
        append_bytes(&mut preimage, counterparty_pubkey.as_slice());
        let amount_bytes = vstd::bytes::u64_to_le_bytes(funding_amount);
        append_bytes(&mut preimage, amount_bytes.as_slice());
        let channel_id = sha256d_digest(preimage.as_slice());
        let state = BitcoinChannelState {
            balance_msat: funding_msat - push_amount_msat,
            commit_num: 0,
            funding_txid: crate::boc::zero_bytes32(),
            funding_output_index: 0,
            funding_amount,
            our_reserve_balance: reserve,
            their_reserve_balance: reserve,
            pending_htlcs: Vec::new(),
            commitment_tx: None,
            revocation_basepoint: random_public_key(),
            payment_basepoint: random_public_key(),
            delayed_payment_basepoint: random_public_key(),
            htlc_basepoint: random_public_key(),
            remote_revocation_basepoint: None,
            remote_delayed_payment_basepoint: None,
            remote_htlc_basepoint: None,
        };
        let channel = BitcoinChannel {
            channel_id,
            state,
            config: self.config,
            status: ChannelStatus::Opening,
            funding_tx: None,
            latest_commitment_tx: None,
            revocation_keys: Vec::new(),
            pending_updates: Vec::new(),
        };
        self.insert_channel(channel);
        Ok(channel_id)
    }

    /// Whether a counterparty's basepoints are acceptable: each a valid
    /// public key, no two the same.
    pub fn verify_basepoints(&self, basepoints: &ChannelBasepoints) -> (r: bool)
        ensures
            r == spec_valid_basepoints(*basepoints),
    {
        if !is_valid_public_key(&basepoints.payment) {
            return false;
        }
        if !is_valid_public_key(&basepoints.delayed_payment) {
            return false;
        }
        if !is_valid_public_key(&basepoints.htlc) {
            return false;
        }
        if !is_valid_public_key(&basepoints.revocation) {
            return false;
        }
        let points = [basepoints.payment, basepoints.delayed_payment, basepoints.htlc, basepoints.revocation];
        for i in 0..4usize
            invariant
                points@ == seq![basepoints.payment, basepoints.delayed_payment, basepoints.htlc, basepoints.revocation],
                forall|a: int, b: int| 0 <= a < i && a < b < 4 ==> points@[a] != points@[b],
        {
            for j in i + 1..4usize
                invariant
                    i < 4,
                    points@ == seq![basepoints.payment, basepoints.delayed_payment, basepoints.htlc, basepoints.revocation],
                    forall|a: int, b: int| 0 <= a < i && a < b < 4 ==> points@[a] != points@[b],
                    forall|b: int| i < b < j ==> points@[i as int] != points@[b],
            {
                if bytes33_eq(&points[i], &points[j]) {
                    return false;
                }
            }
        }
        true
    }

    /// Accepts the counterparty's answer to an open request: the channel must
    /// exist and be `Opening`, and the basepoints must be acceptable; the
    /// channel then becomes `Active`.
    pub fn accept_channel(
        &mut self,
        channel_id: [u8; 32],
        their_funding_pubkey: [u8; 33],
        their_basepoints: ChannelBasepoints,
    ) -> (r: Result<(), ChannelManagerError>)
        requires
            old(self).wf(),
        ensures
            final(self).wf(),
            final(self).config() == old(self).config(),
            final(self).network() == old(self).network(),
            !old(self).channels().dom().contains(channel_id) ==> r == Err::<(), ChannelManagerError>(
                ChannelManagerError::ChannelNotFound,
            ) && final(self).channels() == old(self).channels(),
            old(self).channels().dom().contains(channel_id) && old(self).channels()[channel_id].status != ChannelStatus::Opening
                ==> r == Err::<(), ChannelManagerError>(ChannelManagerError::NotOpening)
                && final(self).channels() == old(self).channels(),
            old(self).channels().dom().contains(channel_id) && old(self).channels()[channel_id].status == ChannelStatus::Opening
                && !spec_valid_basepoints(their_basepoints) ==> r == Err::<(), ChannelManagerError>(
                ChannelManagerError::InvalidBasepoints,
            ) && final(self).channels() == old(self).channels(),
            old(self).channels().dom().contains(channel_id) && old(self).channels()[channel_id].status == ChannelStatus::Opening
                && spec_valid_basepoints(their_basepoints) ==> r == Ok::<(), ChannelManagerError>(())
                && final(self).channels() == old(self).channels().insert(
                channel_id,
                with_status(old(self).channels()[channel_id], ChannelStatus::Active),
            ),
    {
        let i = match self.find_channel(&channel_id) {
            Some(i) => i,
            None => { return Err(ChannelManagerError::ChannelNotFound); },
        };
        if self.channels[i].status != ChannelStatus::Opening {
            return Err(ChannelManagerError::NotOpening);
        }
        if !self.verify_basepoints(&their_basepoints) {
            return Err(ChannelManagerError::InvalidBasepoints);
        }
        let ghost before = self.channels@;
        let mut ch = self.take_channel(i);
        ch.status = ChannelStatus::Active;
        self.restore_channel(i, ch, Ghost(before));
        Ok(())
    }
}

/// The channel with `tx` as its latest commitment and its commitment number
/// one higher.
pub open spec fn with_commitment(ch: BitcoinChannel, tx: Tx) -> BitcoinChannel {
    BitcoinChannel {
        latest_commitment_tx: Some(tx),
        state: BitcoinChannelState { commit_num: (ch.state.commit_num + 1) as u64, ..ch.state },
        ..ch
    }
}

/// The offered-HTLC script: OP_DUP OP_HASH160 <payment hash> OP_EQUAL OP_IF
/// <key> OP_ELSE <expiry> OP_CHECKLOCKTIMEVERIFY OP_DROP <key> OP_ENDIF
/// OP_CHECKSIG.
pub open spec fn spec_offered_htlc_script(payment_hash: Seq<u8>, key: Seq<u8>, cltv_expiry: u32) -> Seq<u8> {
    seq![OP_DUP, OP_HASH160] + spec_push_bytes(payment_hash) + seq![OP_EQUAL, OP_IF] + spec_push_bytes(key)
        + seq![OP_ELSE] + spec_push_int(cltv_expiry) + seq![OP_CLTV, OP_DROP] + spec_push_bytes(key) + seq![
        OP_ENDIF,
        OP_CHECKSIG,
    ]
}

/// The received-HTLC script: OP_IF <payment hash> OP_ELSE <expiry>
/// OP_CHECKLOCKTIMEVERIFY OP_DROP <key> OP_ENDIF OP_CHECKSIG.
pub open spec fn spec_received_htlc_script(payment_hash: Seq<u8>, key: Seq<u8>, cltv_expiry: u32) -> Seq<u8> {
    seq![OP_IF] + spec_push_bytes(payment_hash) + seq![OP_ELSE] + spec_push_int(cltv_expiry) + seq![OP_CLTV, OP_DROP]
        + spec_push_bytes(key) + seq![OP_ENDIF, OP_CHECKSIG]
}

/// The revocable to-local script: <delay> OP_CHECKSEQUENCEVERIFY OP_DROP
/// <delayed key> OP_CHECKSIGVERIFY <revocation key> OP_CHECKSIG.
pub open spec fn spec_to_local_script(to_self_delay: u16, delayed: Seq<u8>, revocation: Seq<u8>) -> Seq<u8> {
    spec_push_int(to_self_delay as u32) + seq![OP_CSV, OP_DROP] + spec_push_bytes(delayed) + seq![OP_CHECKSIGVERIFY]
        + spec_push_bytes(revocation) + seq![OP_CHECKSIG]
}

/// The offered-HTLC script of a payment hash, key and expiry.
fn offered_htlc_script(payment_hash: &[u8; 32], key: &[u8; 33], cltv_expiry: u32) -> (r: Vec<u8>)
    ensures
        r@ == spec_offered_htlc_script(payment_hash@, key@, cltv_expiry),
{
    let mut s: Vec<u8> = Vec::new();
    s.push(OP_DUP);
    s.push(OP_HASH160);
    append_push(&mut s, payment_hash.as_slice());
    s.push(OP_EQUAL);
    s.push(OP_IF);
    append_push(&mut s, key.as_slice());
    s.push(OP_ELSE);
    let expiry = push_int_bytes(cltv_expiry);
    append_bytes(&mut s, expiry.as_slice());
    s.push(OP_CLTV);
    s.push(OP_DROP);
    append_push(&mut s, key.as_slice());
    s.push(OP_ENDIF);
    s.push(OP_CHECKSIG);
    assert(s@ =~= spec_offered_htlc_script(payment_hash@, key@, cltv_expiry));
    s
}

/// The received-HTLC script of a payment hash, key and expiry.
fn received_htlc_script(payment_hash: &[u8; 32], key: &[u8; 33], cltv_expiry: u32) -> (r: Vec<u8>)
    ensures
        r@ == spec_received_htlc_script(payment_hash@, key@, cltv_expiry),
{
    let mut s: Vec<u8> = Vec::new();
    s.push(OP_IF);
    append_push(&mut s, payment_hash.as_slice());
    s.push(OP_ELSE);
    let expiry = push_int_bytes(cltv_expiry);
    append_bytes(&mut s, expiry.as_slice());
    s.push(OP_CLTV);
    s.push(OP_DROP);
    append_push(&mut s, key.as_slice());
    s.push(OP_ENDIF);
    s.push(OP_CHECKSIG);
    assert(s@ =~= spec_received_htlc_script(payment_hash@, key@, cltv_expiry));
    s
}

/// The to-local script of a delay and the delayed and revocation keys.
fn to_local_script(to_self_delay: u16, delayed: &[u8; 33], revocation: &[u8; 33]) -> (r: Vec<u8>)
    ensures
        r@ == spec_to_local_script(to_self_delay, delayed@, revocation@),
{
    let mut s = push_int_bytes(to_self_delay as u32);
    s.push(OP_CSV);
    s.push(OP_DROP);
    append_push(&mut s, delayed.as_slice());
    s.push(OP_CHECKSIGVERIFY);
    append_push(&mut s, revocation.as_slice());
    s.push(OP_CHECKSIG);
    assert(s@ =~= spec_to_local_script(to_self_delay, delayed@, revocation@));
    s
}

/// What an offered-HTLC script checks, read off its bytes: the spender's
/// item is hashed (OP_DUP OP_HASH160) and compared with the payment hash;
/// on a match the key signs at once, otherwise the expiry (which reads back
/// as the expiry) is waited for with OP_CHECKLOCKTIMEVERIFY OP_DROP before
/// the key signs; the script ends OP_ENDIF OP_CHECKSIG.
pub proof fn lemma_offered_htlc_script_layout(payment_hash: [u8; 32], key: [u8; 33], cltv_expiry: u32)
    ensures
        ({
            let s = spec_offered_htlc_script(payment_hash@, key@, cltv_expiry);
            let n = s.len() as int;
            let p = spec_push_int(cltv_expiry);
            &&& n == p.len() + 110
            &&& s.subrange(0, 72) == seq![OP_DUP, OP_HASH160, 0x20u8] + payment_hash@ + seq![OP_EQUAL, OP_IF, 0x21u8]
                + key@ + seq![OP_ELSE]
            &&& s.subrange(72, 72 + p.len() as int) == p
            &&& s.subrange(n - 38, n) == seq![OP_CLTV, OP_DROP, 0x21u8] + key@ + seq![OP_ENDIF, OP_CHECKSIG]
        }),
{
    let s = spec_offered_htlc_script(payment_hash@, key@, cltv_expiry);
    let n = s.len() as int;
    let p = spec_push_int(cltv_expiry);
    assert(s.subrange(0, 72) =~= seq![OP_DUP, OP_HASH160, 0x20u8] + payment_hash@ + seq![OP_EQUAL, OP_IF, 0x21u8]
        + key@ + seq![OP_ELSE]);
    assert(s.subrange(72, 72 + p.len() as int) =~= p);
    assert(s.subrange(n - 38, n) =~= seq![OP_CLTV, OP_DROP, 0x21u8] + key@ + seq![OP_ENDIF, OP_CHECKSIG]);
}

/// What a received-HTLC script holds, read off its bytes: OP_IF, the
/// payment hash, OP_ELSE, the expiry (which reads back as the expiry), then
/// OP_CHECKLOCKTIMEVERIFY OP_DROP, the key, OP_ENDIF OP_CHECKSIG.
pub proof fn lemma_received_htlc_script_layout(payment_hash: [u8; 32], key: [u8; 33], cltv_expiry: u32)
    ensures
        ({
            let s = spec_received_htlc_script(payment_hash@, key@, cltv_expiry);
            let n = s.len() as int;
            let p = spec_push_int(cltv_expiry);
            &&& n == p.len() + 73
            &&& s.subrange(0, 35) == seq![OP_IF, 0x20u8] + payment_hash@ + seq![OP_ELSE]
            &&& s.subrange(35, 35 + p.len() as int) == p
            &&& s.subrange(n - 38, n) == seq![OP_CLTV, OP_DROP, 0x21u8] + key@ + seq![OP_ENDIF, OP_CHECKSIG]
        }),
{
    let s = spec_received_htlc_script(payment_hash@, key@, cltv_expiry);
    let n = s.len() as int;
    let p = spec_push_int(cltv_expiry);
    assert(s.subrange(0, 35) =~= seq![OP_IF, 0x20u8] + payment_hash@ + seq![OP_ELSE]);
    assert(s.subrange(35, 35 + p.len() as int) =~= p);
    assert(s.subrange(n - 38, n) =~= seq![OP_CLTV, OP_DROP, 0x21u8] + key@ + seq![OP_ENDIF, OP_CHECKSIG]);
}

/// Who can spend a to-local output, read off its script: it starts with a
/// push of the delay (which reads back as the delay), then
/// OP_CHECKSEQUENCEVERIFY OP_DROP; the delayed key is the one checked with
/// OP_CHECKSIGVERIFY right after, and the revocation key is the last key
/// pushed, checked by the final OP_CHECKSIG.
pub proof fn lemma_to_local_script_layout(to_self_delay: u16, delayed: [u8; 33], revocation: [u8; 33])
    ensures
        ({
            let s = spec_to_local_script(to_self_delay, delayed@, revocation@);
            let n = s.len() as int;
            let p = spec_push_int(to_self_delay as u32);
            &&& n == p.len() + 72
            &&& s.subrange(0, p.len() as int) == p
            &&& s.subrange(n - 72, n - 70) == seq![OP_CSV, OP_DROP]
            &&& s.subrange(n - 70, n - 35) == seq![0x21u8] + delayed@ + seq![OP_CHECKSIGVERIFY]
            &&& s.subrange(n - 35, n) == seq![0x21u8] + revocation@ + seq![OP_CHECKSIG]
        }),
{
    let s = spec_to_local_script(to_self_delay, delayed@, revocation@);
    let n = s.len() as int;
    let p = spec_push_int(to_self_delay as u32);
    assert(s.subrange(0, p.len() as int) =~= p);
    assert(s.subrange(n - 72, n - 70) =~= seq![OP_CSV, OP_DROP]);
    assert(s.subrange(n - 70, n - 35) =~= seq![0x21u8] + delayed@ + seq![OP_CHECKSIGVERIFY]);
    assert(s.subrange(n - 35, n) =~= seq![0x21u8] + revocation@ + seq![OP_CHECKSIG]);
}

/// An output as a value and script bytes.
pub open spec fn output_view(o: TxOutput) -> (u64, Seq<u8>) {
    (o.value, o.script_pubkey@)
}

/// The outputs of a transaction as values and script bytes.
pub open spec fn outputs_view(outputs: Seq<TxOutput>) -> Seq<(u64, Seq<u8>)> {
    outputs.map_values(|o: TxOutput| output_view(o))
}

/// The satoshis the commitment pays to the side it is built for: our balance
/// for our own commitment, the rest of the funding for the counterparty's.
pub open spec fn to_local_amount(ch: BitcoinChannel, is_local: bool) -> int {
    if is_local {
        (ch.state.balance_msat / 1000) as int
    } else {
        ch.state.funding_amount - ch.state.balance_msat / 1000
    }
}

/// The key an HTLC output of the commitment pays.
pub open spec fn htlc_key(ch: BitcoinChannel, is_local: bool) -> Seq<u8> {
    if is_local {
        ch.state.htlc_basepoint@
    } else {
        ch.state.remote_htlc_basepoint->0@
    }
}

/// The script of an HTLC output paying `key`.
pub open spec fn htlc_script_for(h: HTLC, key: Seq<u8>) -> Seq<u8> {
    match h.direction {
        HTLCDirection::Offered => spec_offered_htlc_script(h.payment_hash@, key, h.cltv_expiry),
        HTLCDirection::Received => spec_received_htlc_script(h.payment_hash@, key, h.cltv_expiry),
    }
}

/// The HTLC outputs of a commitment: one per HTLC whose amount, in
/// satoshis, reaches the dust limit, in order.
pub open spec fn htlc_outputs(htlcs: Seq<HTLC>, dust: u64, key: Seq<u8>) -> Seq<(u64, Seq<u8>)>
    decreases htlcs.len(),
{
    if htlcs.len() == 0 {
        Seq::empty()
    } else {
        let rest = htlc_outputs(htlcs.drop_last(), dust, key);
        let h = htlcs.last();
        if h.amount_msat / 1000 >= dust {
            rest.push(((h.amount_msat / 1000) as u64, htlc_script_for(h, key)))
        } else {
            rest
        }
    }
}

/// Some HTLC reaches the dust limit.
pub open spec fn any_above_dust(htlcs: Seq<HTLC>, dust: u64) -> bool {
    exists|i: int| 0 <= i < htlcs.len() && (#[trigger] htlcs[i]).amount_msat / 1000 >= dust
}

/// The counterparty key that a commitment for it needs is unknown.
pub open spec fn commitment_key_missing(ch: BitcoinChannel, is_local: bool, htlcs: Seq<HTLC>) -> bool {
    let dust = ch.config.dust_limit_satoshis;
    &&& !is_local
    &&& {
        ||| to_local_amount(ch, is_local) >= dust && ch.state.remote_revocation_basepoint is None
        ||| to_local_amount(ch, is_local) >= dust && ch.state.remote_delayed_payment_basepoint is None
        ||| ch.state.remote_htlc_basepoint is None && any_above_dust(htlcs, dust)
    }
}

/// The outputs of a commitment: the to-local output when it reaches the dust
/// limit, then the HTLC outputs.
pub open spec fn commitment_outputs(ch: BitcoinChannel, is_local: bool, htlcs: Seq<HTLC>) -> Seq<(u64, Seq<u8>)> {
    let dust = ch.config.dust_limit_satoshis;
    let amount = to_local_amount(ch, is_local);
    let (delayed, revocation) = if is_local {
        (ch.state.delayed_payment_basepoint@, ch.state.revocation_basepoint@)
    } else {
        (ch.state.remote_delayed_payment_basepoint->0@, ch.state.remote_revocation_basepoint->0@)
    };
    let local: Seq<(u64, Seq<u8>)> = if amount >= dust {
        seq![(amount as u64, spec_to_local_script(ch.config.to_self_delay, delayed, revocation))]
    } else {
        Seq::empty()
    };
    local + htlc_outputs(htlcs, dust, htlc_key(ch, is_local))
}

/// `tx` is the commitment transaction of `ch` for our side (`is_local`) or
/// the counterparty's, carrying `htlcs`: version 2, no lock time, one final
/// unsigned input spending the funding output, and the commitment outputs.
pub open spec fn is_commitment_tx(tx: Tx, ch: BitcoinChannel, is_local: bool, htlcs: Seq<HTLC>) -> bool {
    &&& tx.version == 2
    &&& tx.lock_time == 0
    &&& tx.input@.len() == 1
    &&& tx.input@[0].previous_output == (OutPoint {
        txid: ch.state.funding_txid,
        vout: ch.state.funding_output_index,
    })
    &&& tx.input@[0].script_sig@.len() == 0
    &&& tx.input@[0].sequence == FINAL_SEQUENCE
    &&& outputs_view(tx.output@) == commitment_outputs(ch, is_local, htlcs)
}

/// The channel with `tx` as its latest commitment, its commitment number
/// unchanged.
pub open spec fn with_latest_commitment(ch: BitcoinChannel, tx: Tx) -> BitcoinChannel {
    BitcoinChannel { latest_commitment_tx: Some(tx), ..ch }
}

impl BitcoinChannelManager {
    /// Records a new commitment transaction for a channel and advances its
    /// commitment number.
    pub fn update_commitment(&mut self, channel_id: [u8; 32], new_commitment: Tx) -> (r: Result<
        (),
        ChannelManagerError,
    >)
        requires
            old(self).wf(),
            old(self).channels().dom().contains(channel_id) ==> old(self).channels()[channel_id].state.commit_num
                < u64::MAX,
        ensures
            final(self).wf(),
            final(self).config() == old(self).config(),
            final(self).network() == old(self).network(),
            !old(self).channels().dom().contains(channel_id) ==> r == Err::<(), ChannelManagerError>(
                ChannelManagerError::ChannelNotFound,
            ) && final(self).channels() == old(self).channels(),
            old(self).channels().dom().contains(channel_id) ==> r == Ok::<(), ChannelManagerError>(())
                && final(self).channels() == old(self).channels().insert(
                channel_id,
                with_commitment(old(self).channels()[channel_id], new_commitment),
            ),
    {
        let i = match self.find_channel(&channel_id) {
            Some(i) => i,
            None => { return Err(ChannelManagerError::ChannelNotFound); },
        };
        let ghost before = self.channels@;
        proof { lemma_channel_map_at(before, i as int); }
        let mut ch = self.take_channel(i);
        ch.latest_commitment_tx = Some(new_commitment);
        ch.state.commit_num = ch.state.commit_num + 1;
        self.restore_channel(i, ch, Ghost(before));
        Ok(())
    }

    /// Starts a cooperative close of an active channel: the channel becomes
    /// `Closing`, and the closing transaction is returned still empty.
    pub fn close_channel(&mut self, channel_id: [u8; 32]) -> (r: Result<Tx, ChannelManagerError>)
        requires
            old(self).wf(),
        ensures
            final(self).wf(),
            final(self).config() == old(self).config(),
            final(self).network() == old(self).network(),
            !old(self).channels().dom().contains(channel_id) ==> (r matches Err(e) && e
                == ChannelManagerError::ChannelNotFound) && final(self).channels() == old(self).channels(),
            old(self).channels().dom().contains(channel_id) && old(self).channels()[channel_id].status != ChannelStatus::Active
                ==> (r matches Err(e) && e == ChannelManagerError::NotActive) && final(self).channels() == old(self).channels(),
            old(self).channels().dom().contains(channel_id) && old(self).channels()[channel_id].status == ChannelStatus::Active
                ==> (r matches Ok(tx) && {
                &&& tx.version == 2
                &&& tx.lock_time == 0
                &&& tx.input@.len() == 0
                &&& tx.output@.len() == 0
                &&& final(self).channels() == old(self).channels().insert(
                    channel_id,
                    with_status(old(self).channels()[channel_id], ChannelStatus::Closing),
                )
            }),
    {
        let i = match self.find_channel(&channel_id) {
            Some(i) => i,
            None => { return Err(ChannelManagerError::ChannelNotFound); },
        };
        if self.channels[i].status != ChannelStatus::Active {
            return Err(ChannelManagerError::NotActive);
        }
        let ghost before = self.channels@;
        proof { lemma_channel_map_at(before, i as int); }
        let mut ch = self.take_channel(i);
        ch.status = ChannelStatus::Closing;
        self.restore_channel(i, ch, Ghost(before));
        Ok(Tx { version: 2, lock_time: 0, input: Vec::new(), output: Vec::new() })
    }

    /// Force-closes a channel: it becomes `ForceClosing` whatever its status,
    /// and a copy of its latest commitment transaction, the one to broadcast,
    /// is returned; refused when it has none (the status changes all the
    /// same).
    pub fn force_close_channel(&mut self, channel_id: [u8; 32]) -> (r: Result<Tx, ChannelManagerError>)
        requires
            old(self).wf(),
        ensures
            final(self).wf(),
            final(self).config() == old(self).config(),
            final(self).network() == old(self).network(),
            !old(self).channels().dom().contains(channel_id) ==> (r matches Err(e) && e
                == ChannelManagerError::ChannelNotFound) && final(self).channels() == old(self).channels(),
            old(self).channels().dom().contains(channel_id) ==> {
                &&& final(self).channels() == old(self).channels().insert(
                    channel_id,
                    with_status(old(self).channels()[channel_id], ChannelStatus::ForceClosing),
                )
                &&& match old(self).channels()[channel_id].latest_commitment_tx {
                    Some(t) => r matches Ok(tx) && tx@ == t@,
                    None => r matches Err(e) && e == ChannelManagerError::NoCommitmentTransaction,
                }
            },
    {
        let i = match self.find_channel(&channel_id) {
            Some(i) => i,
            None => { return Err(ChannelManagerError::ChannelNotFound); },
        };
        let ghost before = self.channels@;
        proof { lemma_channel_map_at(before, i as int); }
        let mut ch = self.take_channel(i);
        ch.status = ChannelStatus::ForceClosing;
        let result = match &ch.latest_commitment_tx {
            Some(tx) => Ok(copy_transaction(tx)),
            None => Err(ChannelManagerError::NoCommitmentTransaction),
        };
        self.restore_channel(i, ch, Ghost(before));
        result
    }

    /// The commitment transaction of a channel for our side (`is_local`) or
    /// the counterparty's: it spends the funding output and pays the side's
    /// share to a revocable to-local script when it reaches the dust limit,
    /// then each HTLC of `htlcs` that reaches the dust limit to its HTLC
    /// script. Refused when the channel is unknown or a counterparty key the
    /// outputs need is not known yet.
    pub fn create_commitment_transaction(
        &self,
        channel_id: [u8; 32],
        is_local: bool,
        htlcs: Option<Vec<HTLC>>,
    ) -> (r: Result<Tx, ChannelManagerError>)
        requires
            self.wf(),
        ensures
            !self.channels().dom().contains(channel_id) ==> (r matches Err(e) && e == ChannelManagerError::ChannelNotFound),
            self.channels().dom().contains(channel_id) ==> {
                let ch = self.channels()[channel_id];
                let hs = match htlcs {
                    Some(v) => v@,
                    None => Seq::<HTLC>::empty(),
                };
                if commitment_key_missing(ch, is_local, hs) {
                    r matches Err(e) && e == ChannelManagerError::MissingRemoteBasepoint
                } else {
                    r matches Ok(tx) && is_commitment_tx(tx, ch, is_local, hs)
                }
            },
    {
        let i = match self.find_channel(&channel_id) {
            Some(i) => i,
            None => { return Err(ChannelManagerError::ChannelNotFound); },
        };
        let ch = &self.channels[i];
        proof {
            lemma_channel_map_at(self.channels@, i as int);
            assert(channel_balanced(*ch));
            assert(ch.state.balance_msat / 1000 <= ch.state.funding_amount) by (nonlinear_arith)
                requires
                    ch.state.balance_msat <= ch.state.funding_amount * 1000,
            ;
        }
        let dust = ch.config.dust_limit_satoshis;
        let ghost hs = match &htlcs {
            Some(v) => v@,
            None => Seq::<HTLC>::empty(),
        };
        let to_local = if is_local {
            ch.state.balance_msat / 1000
        } else {
            ch.state.funding_amount - ch.state.balance_msat / 1000
        };
        let mut outputs: Vec<TxOutput> = Vec::new();
        if to_local >= dust {
            let revocation = if is_local {
                ch.state.revocation_basepoint
            } else {
                match ch.state.remote_revocation_basepoint {
                    Some(k) => k,
                    None => { return Err(ChannelManagerError::MissingRemoteBasepoint); },
                }
            };
            let delayed = if is_local {
                ch.state.delayed_payment_basepoint
            } else {
                match ch.state.remote_delayed_payment_basepoint {
                    Some(k) => k,
                    None => { return Err(ChannelManagerError::MissingRemoteBasepoint); },
                }
            };
            outputs.push(TxOutput { value: to_local, script_pubkey: to_local_script(ch.config.to_self_delay, &delayed, &revocation) });
        }
        let ghost local = outputs_view(outputs@);
        assert(local == commitment_outputs(*ch, is_local, hs).take(local.len() as int)) by {
            assert(outputs_view(outputs@) =~= commitment_outputs(*ch, is_local, hs).take(local.len() as int));
        }
        if let Some(list) = &htlcs {
            let n = list.len();
            for j in 0..n
                invariant
                    n == list@.len(),
                    hs == list@,
                    hs == match htlcs {
                        Some(v) => v@,
                        None => Seq::<HTLC>::empty(),
                    },
                    self.channels().dom().contains(channel_id),
                    self.channels()[channel_id] == *ch,
                    dust == ch.config.dust_limit_satoshis,
                    outputs_view(outputs@) == local + htlc_outputs(list@.take(j as int), dust, htlc_key(*ch, is_local)),
                    !is_local && to_local_amount(*ch, is_local) >= dust ==> ch.state.remote_revocation_basepoint is Some
                        && ch.state.remote_delayed_payment_basepoint is Some,
                    !is_local && ch.state.remote_htlc_basepoint is None ==> !any_above_dust(list@.take(j as int), dust),
            {
                let h = list[j];
                assert(list@.take(j + 1).drop_last() == list@.take(j as int));
                assert(list@.take(j + 1).last() == h);
                if h.amount_msat / 1000 >= dust {
                    let key = if is_local {
                        ch.state.htlc_basepoint
                    } else {
                        match ch.state.remote_htlc_basepoint {
                            Some(k) => k,
                            None => {
                                assert(hs[j as int].amount_msat / 1000 >= dust);
                                return Err(ChannelManagerError::MissingRemoteBasepoint);
                            },
                        }
                    };
                    let script = match h.direction {
                        HTLCDirection::Offered => offered_htlc_script(&h.payment_hash, &key, h.cltv_expiry),
                        HTLCDirection::Received => received_htlc_script(&h.payment_hash, &key, h.cltv_expiry),
                    };
                    let ghost before = outputs@;
                    outputs.push(TxOutput { value: h.amount_msat / 1000, script_pubkey: script });
                    assert(outputs_view(outputs@) =~= outputs_view(before).push(output_view(outputs@.last())));
                }
                proof {
                    if !is_local && ch.state.remote_htlc_basepoint is None {
                        assert forall|k: int| 0 <= k < j + 1 implies !(#[trigger] list@.take(j + 1)[k].amount_msat / 1000
                            >= dust) by {
                            if k < j {
                                assert(list@.take(j + 1)[k] == list@.take(j as int)[k]);
                            }
                        }
                    }
                }
            }
            assert(list@.take(n as int) == list@);
        }
        let input = unsigned_input(OutPoint { txid: ch.state.funding_txid, vout: ch.state.funding_output_index });
        let mut inputs: Vec<TxInput> = Vec::new();
        inputs.push(input);
        let tx = Tx { version: 2, lock_time: 0, input: inputs, output: outputs };
        assert(outputs_view(tx.output@) =~= commitment_outputs(*ch, is_local, hs));
        Ok(tx)
    }

    /// Builds the first commitment transactions of a channel, ours and the
    /// counterparty's, with no HTLCs, and keeps ours as the channel's latest
    /// commitment. Refused as `create_commitment_transaction` refuses either;
    /// nothing changes then. The counterparty's funding key is not used.
    pub fn setup_initial_commitments(&mut self, channel_id: &[u8; 32], their_funding_pubkey: &[u8; 33]) -> (r: Result<
        (Tx, Tx),
        ChannelManagerError,
    >)
        requires
            old(self).wf(),
        ensures
            final(self).wf(),
            final(self).config() == old(self).config(),
            final(self).network() == old(self).network(),
            !old(self).channels().dom().contains(*channel_id) ==> (r matches Err(e) && e
                == ChannelManagerError::ChannelNotFound) && final(self).channels() == old(self).channels(),
            old(self).channels().dom().contains(*channel_id) ==> {
                let ch = old(self).channels()[*channel_id];
                if commitment_key_missing(ch, false, Seq::empty()) {
                    (r matches Err(e) && e == ChannelManagerError::MissingRemoteBasepoint) && final(self).channels()
                        == old(self).channels()
                } else {
                    r matches Ok((ours, theirs)) && {
                        let kept = final(self).channels()[*channel_id].latest_commitment_tx;
                        &&& is_commitment_tx(ours, ch, true, Seq::empty())
                        &&& is_commitment_tx(theirs, ch, false, Seq::empty())
                        &&& kept matches Some(t) && t@ == ours@
                        &&& final(self).channels() == old(self).channels().insert(
                            *channel_id,
                            with_latest_commitment(ch, kept->0),
                        )
                    }
                }
            },
    {
        let ours = match self.create_commitment_transaction(*channel_id, true, None) {
            Ok(tx) => tx,
            Err(e) => { return Err(e); },
        };
        let theirs = match self.create_commitment_transaction(*channel_id, false, None) {
            Ok(tx) => tx,
            Err(e) => { return Err(e); },
        };
        let i = match self.find_channel(channel_id) {
            Some(i) => i,
            None => { return Err(ChannelManagerError::ChannelNotFound); },
        };
        let ghost before = self.channels@;
        proof { lemma_channel_map_at(before, i as int); }
        let mut ch = self.take_channel(i);
        ch.latest_commitment_tx = Some(copy_transaction(&ours));
        self.restore_channel(i, ch, Ghost(before));
        Ok((ours, theirs))
    }
}

/// Every channel the manager holds is balanced: its own balance never exceeds
/// what funded it.
pub proof fn lemma_channels_balanced(m: BitcoinChannelManager, channel_id: [u8; 32])
    requires
        m.wf(),
        m.channels().dom().contains(channel_id),
    ensures
        channel_balanced(m.channels()[channel_id]),
{
    lemma_channel_map_dom(m.channels@, channel_id);
    let i = choose|i: int| 0 <= i < m.channels@.len() && m.channels@[i].channel_id == channel_id;
    lemma_channel_map_at(m.channels@, i);
}

/// An id is held by the map exactly when some entry of the list has it.
pub proof fn lemma_channel_map_dom(s: Seq<BitcoinChannel>, id: [u8; 32])
    ensures
        channel_map(s).dom().contains(id) <==> exists|i: int| 0 <= i < s.len() && s[i].channel_id == id,
    decreases s.len(),
{
    if s.len() > 0 {
        lemma_channel_map_dom(s.drop_last(), id);
        if channel_map(s).dom().contains(id) && s.last().channel_id != id {
            let i = choose|i: int| 0 <= i < s.drop_last().len() && s.drop_last()[i].channel_id == id;
            assert(s[i].channel_id == id);
        }
        if exists|i: int| 0 <= i < s.len() && s[i].channel_id == id {
            let i = choose|i: int| 0 <= i < s.len() && s[i].channel_id == id;
            if i < s.len() - 1 {
                assert(s.drop_last()[i].channel_id == id);
            }
        }
    }
}

/// With distinct ids, the map gives each entry under its own id.
pub proof fn lemma_channel_map_at(s: Seq<BitcoinChannel>, i: int)
    requires
        distinct_ids(s),
        0 <= i < s.len(),
    ensures
        channel_map(s).dom().contains(s[i].channel_id),
        channel_map(s)[s[i].channel_id] == s[i],
    decreases s.len(),
{
    if i < s.len() - 1 {
        lemma_channel_map_at(s.drop_last(), i);
        assert(s.last().channel_id != s[i].channel_id);
    }
}

/// Overwriting an entry with one of the same id overwrites it in the map.
pub proof fn lemma_channel_map_update(s: Seq<BitcoinChannel>, i: int, c: BitcoinChannel)
    requires
        distinct_ids(s),
        0 <= i < s.len(),
        c.channel_id == s[i].channel_id,
    ensures
        distinct_ids(s.update(i, c)),
        (channels_wf(s) && channel_balanced(c)) ==> channels_wf(s.update(i, c)),
        channel_map(s.update(i, c)) == channel_map(s).insert(c.channel_id, c),
    decreases s.len(),
{
    let u = s.update(i, c);
    if i == s.len() - 1 {
        assert(u.drop_last() == s.drop_last());
        assert(channel_map(u) =~= channel_map(s).insert(c.channel_id, c));
    } else {
        assert(u.drop_last() == s.drop_last().update(i, c));
        lemma_channel_map_update(s.drop_last(), i, c);
        assert(s.last().channel_id != c.channel_id);
        assert(channel_map(u) =~= channel_map(s).insert(c.channel_id, c));
    }
}

} // verus!
