use vstd::prelude::*;

use crate::bitcoin_types::BitcoinNetwork;
use crate::btc::{
    bytes32_eq, ecdsa_sign, legacy_sighash_all, ConvertedTransaction, outpoint_eq, p2pkh_for_key, public_key_of, spec_ecdsa_sign,
    spec_legacy_sighash, spec_p2pkh_for_key, SIGHASH_ALL, spec_public_key, unsigned_input, OutPoint, Tx, TxInput, TxOutput,
    FINAL_SEQUENCE,
};
use crate::channel_state::{BitcoinChannelState, HTLCState, HTLCStatus};
use crate::hashing::{append_bytes, sha256_digest, spec_sha256};
use crate::script::{
    append_push, push_int_bytes, spec_push_bytes, spec_push_int, OP_CHECKSIG, OP_CLTV, OP_DROP, OP_ELSE, OP_ENDIF,
    OP_IF,
};
use crate::proof_types::BitcoinProofBundle;

verus! {

/// How a signature commits to the transaction.
#[derive(Clone, Copy, Debug, PartialEq, Eq, Structural)]
pub enum SigHashType {
    All,
}

/// The consensus number of a sighash type.
pub open spec fn sighash_code(t: SigHashType) -> u32 {
    match t {
        SigHashType::All => SIGHASH_ALL,
    }
}

/// The consensus number of a sighash type, as `sighash_code` states.
pub fn sighash_type_code(t: SigHashType) -> (r: u32)
    ensures
        r == sighash_code(t),
{
    match t {
        SigHashType::All => SIGHASH_ALL,
    }
}

/// One input's signature.
#[derive(Clone, Copy, Debug)]
pub struct TransactionSignature {
    pub pubkey: [u8; 33],
    pub signature: [u8; 64],
    pub input_index: u32,
    pub sighash_type: SigHashType,
}

/// The role a transaction plays in a channel.
#[derive(Clone, Copy, Debug, PartialEq, Eq, Structural)]
pub enum TransactionType {
    Funding,
    StateUpdate,
    HTLCCreate,
    HTLCExecute,
    HTLCRefund,
    Dispute,
    ChannelClose,
}

/// Where a transaction is in its life.
#[derive(Clone, Copy, Debug, PartialEq, Eq, Structural)]
pub enum TransactionStatus {
    Created,
    Signed,
    Broadcasted,
    Confirmed,
    Failed,
}

/// Why building a transaction failed.
#[derive(Clone, Copy, Debug, PartialEq, Eq, Structural)]
pub enum TransactionError {
    InsufficientFunds,
    InvalidSignature,
    InvalidScript,
    InvalidState,
    InvalidProof,
    InvalidAmount,
    InvalidSequence,
    TransactionNotFound,
    UTXONotFound,
}

/// Bookkeeping kept with a channel transaction.
#[derive(Clone, Debug)]
pub struct TransactionMetadata {
    pub tx_type: TransactionType,
    pub channel_id: [u8; 32],
    pub sequence: u64,
    pub block_height: u32,
    pub confirmation_height: Option<u32>,
    pub confirmation_hash: Option<[u8; 32]>,
    pub related_txids: Vec<[u8; 32]>,
    pub fee: u64,
    pub status: TransactionStatus,
}

/// A channel transaction with its signatures and metadata.
#[derive(Clone, Debug)]
pub struct BitcoinTransaction {
    pub tx_data: Tx,
    pub signatures: Vec<TransactionSignature>,
    pub metadata: TransactionMetadata,
    pub proof_bundle: Option<BitcoinProofBundle>,
}

/// The output an outpoint refers to in a list of known outputs: the first
/// entry for it.
pub open spec fn lookup_utxo(utxos: Seq<(OutPoint, TxOutput)>, op: OutPoint) -> Option<TxOutput>
    decreases utxos.len(),
{
    if utxos.len() == 0 {
        None
    } else {
        match lookup_utxo(utxos.drop_last(), op) {
            Some(o) => Some(o),
            None => if utxos.last().0 == op { Some(utxos.last().1) } else { None },
        }
    }
}

/// The total value of the outputs the outpoints refer to; `None` when one of
/// them is not known.
pub open spec fn inputs_value(utxos: Seq<(OutPoint, TxOutput)>, inputs: Seq<OutPoint>) -> Option<int>
    decreases inputs.len(),
{
    if inputs.len() == 0 {
        Some(0)
    } else {
        match (inputs_value(utxos, inputs.drop_last()), lookup_utxo(utxos, inputs.last())) {
            (Some(t), Some(o)) => Some(t + o.value),
            _ => None,
        }
    }
}

/// Every running total `verify_inputs` forms fits in a `u64`.
pub open spec fn inputs_sums_fit(utxos: Seq<(OutPoint, TxOutput)>, inputs: Seq<OutPoint>) -> bool {
    forall|i: int|
        0 <= i <= inputs.len() ==> (#[trigger] inputs_value(utxos, inputs.take(i)) matches Some(t) ==> t <= u64::MAX)
}

/// The SHA-256 of a preimage, as an HTLC's payment hash.
pub fn hash_preimage(preimage: &[u8; 32]) -> (r: [u8; 32])
    ensures
        r@ == spec_sha256(preimage@),
{
    sha256_digest(preimage.as_slice())
}

/// The HTLC locking script paying `recipient` with a signature, or `refund`
/// after block `timelock`: OP_IF <recipient> OP_CHECKSIG OP_ELSE <timelock>
/// OP_CHECKLOCKTIMEVERIFY OP_DROP <refund> OP_CHECKSIG OP_ENDIF.
pub open spec fn spec_htlc_script(recipient: Seq<u8>, refund: Seq<u8>, timelock: u32) -> Seq<u8> {
    seq![OP_IF] + spec_push_bytes(recipient) + seq![OP_CHECKSIG, OP_ELSE] + spec_push_int(timelock) + seq![
        OP_CLTV,
        OP_DROP,
    ] + spec_push_bytes(refund) + seq![OP_CHECKSIG, OP_ENDIF]
}

/// The HTLC locking script of the two keys and the timelock, as
/// `spec_htlc_script` states.
pub(crate) fn htlc_script_bytes(recipient: &[u8; 33], refund: &[u8; 33], timelock: u32) -> (r: Vec<u8>)
    ensures
        r@ == spec_htlc_script(recipient@, refund@, timelock),
{
    let mut s: Vec<u8> = Vec::new();
    s.push(OP_IF);
    append_push(&mut s, recipient.as_slice());
    s.push(OP_CHECKSIG);
    s.push(OP_ELSE);
    let lock = push_int_bytes(timelock);
    append_bytes(&mut s, lock.as_slice());
    s.push(OP_CLTV);
    s.push(OP_DROP);
    append_push(&mut s, refund.as_slice());
    s.push(OP_CHECKSIG);
    s.push(OP_ENDIF);
    assert(s@ =~= spec_htlc_script(recipient@, refund@, timelock));
    s
}

/// Who can spend an HTLC output, read off its script: the branch taken
/// first (OP_IF) checks a signature of the recipient at once; the other
/// branch pushes the timelock (which reads back as the timelock), waits for
/// it with OP_CHECKLOCKTIMEVERIFY OP_DROP, and only then checks a signature
/// of the refund key.
pub proof fn lemma_htlc_script_layout(recipient: [u8; 33], refund: [u8; 33], timelock: u32)
    ensures
        ({
            let s = spec_htlc_script(recipient@, refund@, timelock);
            let n = s.len() as int;
            let p = spec_push_int(timelock);
            &&& n == p.len() + 75
            &&& s.subrange(0, 37) == seq![OP_IF, 0x21u8] + recipient@ + seq![OP_CHECKSIG, OP_ELSE]
            &&& s.subrange(37, 37 + p.len() as int) == p
            &&& s.subrange(n - 38, n) == seq![OP_CLTV, OP_DROP, 0x21u8] + refund@ + seq![OP_CHECKSIG, OP_ENDIF]
        }),
{
    let s = spec_htlc_script(recipient@, refund@, timelock);
    let n = s.len() as int;
    let p = spec_push_int(timelock);
    assert(s.subrange(0, 37) =~= seq![OP_IF, 0x21u8] + recipient@ + seq![OP_CHECKSIG, OP_ELSE]);
    assert(s.subrange(37, 37 + p.len() as int) =~= p);
    assert(s.subrange(n - 38, n) =~= seq![OP_CLTV, OP_DROP, 0x21u8] + refund@ + seq![OP_CHECKSIG, OP_ENDIF]);
}

/// `sigs` signs every input of `tx` with `secret`, in order, each with
/// SIGHASH_ALL over the legacy digest, and names `pubkey` as the signer.
pub open spec fn signs_all_inputs(sigs: Seq<TransactionSignature>, tx: Tx, secret: Seq<u8>, pubkey: [u8; 33]) -> bool {
    &&& sigs.len() == tx.input@.len()
    &&& forall|i: int|
        0 <= i < sigs.len() ==> {
            &&& (#[trigger] sigs[i]).input_index == i
            &&& sigs[i].pubkey == pubkey
            &&& sigs[i].sighash_type == SigHashType::All
            &&& spec_ecdsa_sign(secret, spec_legacy_sighash(tx@, i, sighash_code(sigs[i].sighash_type))) == Some(
                sigs[i].signature@,
            )
        }
}

/// Signatures made by the builder commit to the whole transaction: each
/// one, recorded as SIGHASH_ALL, is the signature of its input's legacy
/// digest for sighash type 1 (committing to every input and output), and the
/// type it records is the type its digest was made for.
pub proof fn lemma_signatures_commit_to_all(sigs: Seq<TransactionSignature>, tx: Tx, secret: Seq<u8>, pubkey: [u8; 33])
    requires
        signs_all_inputs(sigs, tx, secret, pubkey),
    ensures
        forall|i: int|
            0 <= i < sigs.len() ==> {
                &&& (#[trigger] sigs[i]).sighash_type == SigHashType::All
                &&& sighash_code(sigs[i].sighash_type) == 1u32
                &&& spec_ecdsa_sign(secret, spec_legacy_sighash(tx@, i, 1u32)) == Some(sigs[i].signature@)
            },
{
}

/// The metadata of a freshly created channel transaction.
pub open spec fn fresh_metadata(m: TransactionMetadata, tx_type: TransactionType, state: BitcoinChannelState, fee: u64) -> bool {
    &&& m.tx_type == tx_type
    &&& m.channel_id == state.channel_id
    &&& m.sequence == state.sequence
    &&& m.block_height == state.block_height
    &&& m.confirmation_height is None
    &&& m.confirmation_hash is None
    &&& m.related_txids@.len() == 0
    &&& m.fee == fee
    &&& m.status == TransactionStatus::Created
}

/// A version-2 transaction spending exactly `inputs`, in order, each with an
/// empty script and the final sequence number.
pub open spec fn spends_exactly(tx: Tx, inputs: Seq<OutPoint>, lock_time: u32) -> bool {
    &&& tx.version == 2
    &&& tx.lock_time == lock_time
    &&& tx.input@.len() == inputs.len()
    &&& forall|i: int|
        0 <= i < inputs.len() ==> {
            &&& (#[trigger] tx.input@[i]).previous_output == inputs[i]
            &&& tx.input@[i].script_sig@.len() == 0
            &&& tx.input@[i].sequence == FINAL_SEQUENCE
        }
}

/// `preimage` unlocks the HTLC: it is the preimage the HTLC already has on
/// record, or the HTLC's payment hash is its SHA-256.
pub open spec fn preimage_matches(htlc_state: HTLCState, preimage: [u8; 32]) -> bool {
    ||| htlc_state.preimage == Some(preimage)
    ||| htlc_state.preimage_hash matches Some(h) && h@ == spec_sha256(preimage@)
}

/// Builds, signs and records the transactions of a payment channel.
pub struct TransactionBuilder {
    secret_key: [u8; 32],
    public_key: [u8; 33],
    utxo_set: Vec<(OutPoint, TxOutput)>,
    network: BitcoinNetwork,
}

impl TransactionBuilder {
    /// The outputs the builder can spend.
    pub closed spec fn spec_utxos(&self) -> Seq<(OutPoint, TxOutput)> {
        self.utxo_set@
    }

    /// The builder's secret key.
    pub closed spec fn spec_secret(&self) -> Seq<u8> {
        self.secret_key@
    }

    /// The builder's public key.
    pub closed spec fn spec_public_key_bytes(&self) -> [u8; 33] {
        self.public_key
    }

    /// The network the builder works on.
    pub closed spec fn spec_network(&self) -> BitcoinNetwork {
        self.network
    }

    /// The public key is the one the secret key gives.
    pub closed spec fn wf(&self) -> bool {
        spec_public_key(self.secret_key@) == Some(self.public_key@)
    }

    /// A builder for `secret_key`; `None` when the bytes are not a valid
    /// secret key.
    pub fn new(secret_key: [u8; 32], network: BitcoinNetwork) -> (r: Option<Self>)
        ensures
            r is None <==> spec_public_key(secret_key@) is None,
            r matches Some(b) ==> {
                &&& b.wf()
                &&& b.spec_secret() == secret_key@
                &&& Some(b.spec_public_key_bytes()@) == spec_public_key(secret_key@)
                &&& b.spec_utxos().len() == 0
                &&& b.spec_network() == network
            },
    {
        match public_key_of(&secret_key) {
            None => None,
            Some(public_key) => Some(TransactionBuilder { secret_key, public_key, utxo_set: Vec::new(), network }),
        }
    }

    /// The builder's public key.
    pub fn public_key(&self) -> (r: [u8; 33])
        ensures
            r == self.spec_public_key_bytes(),
    {
        self.public_key
    }

    /// Records a spendable output, replacing any earlier entry for the same
    /// outpoint.
    pub fn add_utxo(&mut self, outpoint: OutPoint, txout: TxOutput)
        ensures
            final(self).wf() == old(self).wf(),
            final(self).spec_secret() == old(self).spec_secret(),
            final(self).spec_public_key_bytes() == old(self).spec_public_key_bytes(),
            final(self).spec_network() == old(self).spec_network(),
            forall|op: OutPoint|
                #[trigger] lookup_utxo(final(self).spec_utxos(), op) == if op == outpoint {
                    Some(txout)
                } else {
                    lookup_utxo(old(self).spec_utxos(), op)
                },
    {
        let ghost before = self.utxo_set@;
        let n = self.utxo_set.len();
        let mut i: usize = 0;
        while i < n
            invariant
                n == before.len(),
                i <= n,
                self.utxo_set@ == before,
                self.secret_key == old(self).secret_key,
                self.public_key == old(self).public_key,
                self.network == old(self).network,
                before == old(self).utxo_set@,
                lookup_utxo(before.take(i as int), outpoint) is None,
            decreases n - i,
        {
            if outpoint_eq(&self.utxo_set[i].0, &outpoint) {
                self.utxo_set[i] = (outpoint, txout);
                proof {
                    assert(self.utxo_set@ == before.update(i as int, (outpoint, txout)));
                    assert forall|op: OutPoint|
                        #[trigger] lookup_utxo(self.utxo_set@, op) == if op == outpoint {
                            Some(txout)
                        } else {
                            lookup_utxo(before, op)
                        } by {
                        lemma_lookup_update_first(before, outpoint, txout, i as int, op);
                    }
                }
                return;
            }
            assert(before.take(i + 1).drop_last() == before.take(i as int));
            i = i + 1;
        }
        assert(before.take(n as int) == before);
        self.utxo_set.push((outpoint, txout));
        assert(self.utxo_set@.drop_last() == before);
    }

    /// The total value of the outputs `inputs` refer to; an unknown outpoint
    /// is refused.
    fn verify_inputs(&self, inputs: &Vec<OutPoint>) -> (r: Result<u64, TransactionError>)
        requires
            inputs_sums_fit(self.spec_utxos(), inputs@),
        ensures
            match inputs_value(self.spec_utxos(), inputs@) {
                Some(t) => 0 <= t <= u64::MAX && r == Ok::<u64, TransactionError>(t as u64),
                None => r == Err::<u64, TransactionError>(TransactionError::UTXONotFound),
            },
    {
        let ghost utxos = self.utxo_set@;
        let mut total: u64 = 0;
        let n = inputs.len();
        for i in 0..n
            invariant
                n == inputs@.len(),
                utxos == self.utxo_set@,
                inputs_sums_fit(utxos, inputs@),
                inputs_value(utxos, inputs@.take(i as int)) == Some(total as int),
        {
            let found = self.find_utxo(&inputs[i]);
            assert(inputs@.take(i + 1).drop_last() == inputs@.take(i as int));
            assert(inputs@.take(i + 1).last() == inputs@[i as int]);
            match found {
                None => {
                    proof { lemma_inputs_value_none_extends(utxos, inputs@, i as int + 1); }
                    return Err(TransactionError::UTXONotFound);
                },
                Some(value) => {
                    assert(inputs_value(utxos, inputs@.take(i + 1)) == Some(total + value));
                    total = total + value;
                },
            }
        }
        assert(inputs@.take(n as int) == inputs@);
        Ok(total)
    }

    /// The output recorded for `op`, if any.
    fn find_utxo(&self, op: &OutPoint) -> (r: Option<u64>)
        ensures
            r == (match lookup_utxo(self.spec_utxos(), *op) {
                Some(o) => Some(o.value),
                None => None,
            }),
    {
        let n = self.utxo_set.len();
        for i in 0..n
            invariant
                n == self.utxo_set@.len(),
                lookup_utxo(self.utxo_set@.take(i as int), *op) is None,
        {
            assert(self.utxo_set@.take(i + 1).drop_last() == self.utxo_set@.take(i as int));
            if outpoint_eq(&self.utxo_set[i].0, op) {
                let value = self.utxo_set[i].1.value;
                proof { lemma_lookup_prefix(self.utxo_set@, *op, i as int + 1); }
                return Some(value);
            }
        }
        assert(self.utxo_set@.take(n as int) == self.utxo_set@);
        None
    }

    /// Signs every input of `tx` with SIGHASH_ALL.
    fn sign_transaction(&self, tx: &Tx) -> (r: Result<Vec<TransactionSignature>, TransactionError>)
        requires
            self.wf(),
            tx.input@.len() <= u32::MAX,
        ensures
            r matches Ok(sigs) && signs_all_inputs(sigs@, *tx, self.spec_secret(), self.spec_public_key_bytes()),
    {
        let mut signatures: Vec<TransactionSignature> = Vec::new();
        let converted = ConvertedTransaction::new(tx);
        let n = tx.input.len();
        for index in 0..n
            invariant
                self.wf(),
                n == tx.input@.len(),
                converted.model() == tx@,
                n <= u32::MAX,
                signatures@.len() == index,
                forall|i: int|
                    0 <= i < index ==> {
                        &&& (#[trigger] signatures@[i]).input_index == i
                        &&& signatures@[i].pubkey == self.public_key
                        &&& signatures@[i].sighash_type == SigHashType::All
                        &&& spec_ecdsa_sign(
                            self.secret_key@,
                            spec_legacy_sighash(tx@, i, sighash_code(signatures@[i].sighash_type)),
                        ) == Some(signatures@[i].signature@)
                    },
        {
            let sighash_type = SigHashType::All;
            let digest = legacy_sighash_all(&converted, index, sighash_type_code(sighash_type));
            let signed = ecdsa_sign(&self.secret_key, &digest);
            let signature = match signed {
                Some(s) => s,
                None => { return Err(TransactionError::InvalidSignature); },
            };
            signatures.push(TransactionSignature {
                pubkey: self.public_key,
                signature,
                input_index: index as u32,
                sighash_type,
            });
        }
        Ok(signatures)
    }

    /// Metadata for a new transaction of the given type.
    fn new_metadata(tx_type: TransactionType, channel_state: &BitcoinChannelState, fee: u64) -> (r: TransactionMetadata)
        ensures
            fresh_metadata(r, tx_type, *channel_state, fee),
    {
        TransactionMetadata {
            tx_type,
            channel_id: channel_state.channel_id,
            sequence: channel_state.sequence,
            block_height: channel_state.block_height,
            confirmation_height: None,
            confirmation_hash: None,
            related_txids: Vec::new(),
            fee,
            status: TransactionStatus::Created,
        }
    }

    /// The funding transaction of a channel: spends `inputs`, locks the
    /// channel balance in output 0 and returns the change, after `fee`, in
    /// output 1, both to the builder's key. Refused when an input is unknown
    /// or the inputs cannot cover balance plus fee.
    pub fn create_funding_transaction(
        &self,
        channel_state: &BitcoinChannelState,
        inputs: Vec<OutPoint>,
        fee: u64,
    ) -> (r: Result<BitcoinTransaction, TransactionError>)
        requires
            self.wf(),
            inputs_sums_fit(self.spec_utxos(), inputs@),
            channel_state.balance + fee <= u64::MAX,
            inputs@.len() <= u32::MAX,
        ensures
            match inputs_value(self.spec_utxos(), inputs@) {
                None => r == Err::<BitcoinTransaction, TransactionError>(TransactionError::UTXONotFound),
                Some(t) => if t < channel_state.balance + fee {
                    r == Err::<BitcoinTransaction, TransactionError>(TransactionError::InsufficientFunds)
                } else {
                    (r matches Ok(btx) && {
                        let tx = btx.tx_data;
                        &&& spends_exactly(tx, inputs@, 0)
                        &&& tx.output@.len() == 2
                        &&& tx.output@[0].value == channel_state.balance
                        &&& tx.output@[0].script_pubkey@ == spec_p2pkh_for_key(self.spec_public_key_bytes()@)
                        &&& tx.output@[1].value == t - channel_state.balance - fee
                        &&& tx.output@[1].script_pubkey@ == spec_p2pkh_for_key(self.spec_public_key_bytes()@)
                        &&& signs_all_inputs(btx.signatures@, tx, self.spec_secret(), self.spec_public_key_bytes())
                        &&& fresh_metadata(btx.metadata, TransactionType::Funding, *channel_state, fee)
                        &&& btx.proof_bundle is None
                    })
                },
            },
    {
        let total_input = match self.verify_inputs(&inputs) {
            Ok(t) => t,
            Err(e) => { return Err(e); },
        };
        if total_input < channel_state.balance + fee {
            return Err(TransactionError::InsufficientFunds);
        }
        let tx_inputs = unsigned_inputs(&inputs);
        let mut outputs: Vec<TxOutput> = Vec::new();
        outputs.push(TxOutput { value: channel_state.balance, script_pubkey: p2pkh_for_key(&self.public_key) });
        outputs.push(TxOutput { value: total_input - channel_state.balance - fee, script_pubkey: p2pkh_for_key(&self.public_key) });
        let tx = Tx { version: 2, lock_time: 0, input: tx_inputs, output: outputs };
        let signatures = match self.sign_transaction(&tx) {
            Ok(s) => s,
            Err(e) => { return Err(e); },
        };
        Ok(BitcoinTransaction {
            tx_data: tx,
            signatures,
            metadata: Self::new_metadata(TransactionType::Funding, channel_state, fee),
            proof_bundle: None,
        })
    }

    /// The HTLC locking script for `htlc_state` expiring at `timelock`;
    /// refused when a key is missing.
    fn create_htlc_script(&self, htlc_state: &HTLCState, timelock: u32) -> (r: Result<Vec<u8>, TransactionError>)
        ensures
            match (htlc_state.recipient_pubkey, htlc_state.refund_pubkey) {
                (Some(rk), Some(fk)) => r matches Ok(s) && s@ == spec_htlc_script(rk@, fk@, timelock),
                _ => r == Err::<Vec<u8>, TransactionError>(TransactionError::InvalidScript),
            },
    {
        let recipient = match htlc_state.recipient_pubkey {
            Some(k) => k,
            None => { return Err(TransactionError::InvalidScript); },
        };
        let refund = match htlc_state.refund_pubkey {
            Some(k) => k,
            None => { return Err(TransactionError::InvalidScript); },
        };
        Ok(htlc_script_bytes(&recipient, &refund, timelock))
    }

    /// The transaction that opens an HTLC: spends output 0 of the channel's
    /// closure transaction, locks the HTLC amount in output 0 behind the HTLC
    /// script (expiring `timelock` blocks after the channel's height), and
    /// returns the rest of the balance, after `fee`, to the builder's key.
    pub fn create_htlc_transaction(
        &self,
        channel_state: &BitcoinChannelState,
        htlc_state: &HTLCState,
        fee: u64,
    ) -> (r: Result<BitcoinTransaction, TransactionError>)
        requires
            self.wf(),
            channel_state.block_height + htlc_state.timelock <= u32::MAX,
            htlc_state.recipient_pubkey is Some && htlc_state.refund_pubkey is Some
                && channel_state.metadata.closure_txid is Some ==> htlc_state.amount + fee <= channel_state.balance,
        ensures
            htlc_state.recipient_pubkey is None || htlc_state.refund_pubkey is None
                ==> r == Err::<BitcoinTransaction, TransactionError>(TransactionError::InvalidScript),
            htlc_state.recipient_pubkey is Some && htlc_state.refund_pubkey is Some && channel_state.metadata.closure_txid is None
                ==> r == Err::<BitcoinTransaction, TransactionError>(TransactionError::TransactionNotFound),
            htlc_state.recipient_pubkey is Some && htlc_state.refund_pubkey is Some && channel_state.metadata.closure_txid is Some
                ==> (r matches Ok(btx) && {
                    let tx = btx.tx_data;
                    &&& spends_exactly(tx, seq![OutPoint { txid: channel_state.metadata.closure_txid->0, vout: 0 }], 0)
                    &&& tx.output@.len() == 2
                    &&& tx.output@[0].value == htlc_state.amount
                    &&& tx.output@[0].script_pubkey@ == spec_htlc_script(
                        htlc_state.recipient_pubkey->0@,
                        htlc_state.refund_pubkey->0@,
                        (channel_state.block_height + htlc_state.timelock) as u32,
                    )
                    &&& tx.output@[1].value == channel_state.balance - htlc_state.amount - fee
                    &&& tx.output@[1].script_pubkey@ == spec_p2pkh_for_key(self.spec_public_key_bytes()@)
                    &&& signs_all_inputs(btx.signatures@, tx, self.spec_secret(), self.spec_public_key_bytes())
                    &&& fresh_metadata(btx.metadata, TransactionType::HTLCCreate, *channel_state, fee)
                    &&& btx.proof_bundle is None
                }),
    {
        let htlc_script = match self.create_htlc_script(htlc_state, channel_state.block_height + htlc_state.timelock) {
            Ok(s) => s,
            Err(e) => { return Err(e); },
        };
        let txid = match channel_state.metadata.closure_txid {
            Some(t) => t,
            None => { return Err(TransactionError::TransactionNotFound); },
        };
        let mut tx_inputs: Vec<TxInput> = Vec::new();
        tx_inputs.push(unsigned_input(OutPoint { txid, vout: 0 }));
        let mut outputs: Vec<TxOutput> = Vec::new();
        outputs.push(TxOutput { value: htlc_state.amount, script_pubkey: htlc_script });
        outputs.push(TxOutput { value: channel_state.balance - htlc_state.amount - fee, script_pubkey: p2pkh_for_key(&self.public_key) });
        let tx = Tx { version: 2, lock_time: 0, input: tx_inputs, output: outputs };
        assert(spends_exactly(tx, seq![OutPoint { txid, vout: 0 }], 0));
        let signatures = match self.sign_transaction(&tx) {
            Ok(s) => s,
            Err(e) => { return Err(e); },
        };
        Ok(BitcoinTransaction {
            tx_data: tx,
            signatures,
            metadata: Self::new_metadata(TransactionType::HTLCCreate, channel_state, fee),
            proof_bundle: None,
        })
    }

    /// The transaction that claims a pending HTLC with its preimage: spends
    /// output 0 of the HTLC's execution transaction and pays the amount, after
    /// `fee`, to the recipient's key. Refused when the HTLC is not pending, the
    /// preimage neither is the one on record nor hashes to the payment hash,
    /// the execution transaction is unknown, or the recipient key is missing,
    /// in that order.
    pub fn create_htlc_execution_transaction(
        &self,
        channel_state: &BitcoinChannelState,
        htlc_state: &HTLCState,
        preimage: &[u8; 32],
        fee: u64,
    ) -> (r: Result<BitcoinTransaction, TransactionError>)
        requires
            self.wf(),
            htlc_state.status == HTLCStatus::Pending
                && preimage_matches(*htlc_state, *preimage)
                && htlc_state.execution_txid is Some ==> fee <= htlc_state.amount,
        ensures
            htlc_state.status != HTLCStatus::Pending
                ==> r == Err::<BitcoinTransaction, TransactionError>(TransactionError::InvalidState),
            htlc_state.status == HTLCStatus::Pending && !preimage_matches(*htlc_state, *preimage)
                ==> r == Err::<BitcoinTransaction, TransactionError>(TransactionError::InvalidProof),
            htlc_state.status == HTLCStatus::Pending && preimage_matches(*htlc_state, *preimage)
                && htlc_state.execution_txid is None
                ==> r == Err::<BitcoinTransaction, TransactionError>(TransactionError::TransactionNotFound),
            htlc_state.status == HTLCStatus::Pending && preimage_matches(*htlc_state, *preimage)
                && htlc_state.execution_txid is Some && htlc_state.recipient_pubkey is None
                ==> r == Err::<BitcoinTransaction, TransactionError>(TransactionError::InvalidScript),
            htlc_state.status == HTLCStatus::Pending && preimage_matches(*htlc_state, *preimage)
                && htlc_state.execution_txid is Some && htlc_state.recipient_pubkey is Some
                ==> (r matches Ok(btx) && {
                    let tx = btx.tx_data;
                    &&& spends_exactly(tx, seq![OutPoint { txid: htlc_state.execution_txid->0, vout: 0 }], 0)
                    &&& tx.output@.len() == 1
                    &&& tx.output@[0].value == htlc_state.amount - fee
                    &&& tx.output@[0].script_pubkey@ == spec_p2pkh_for_key(htlc_state.recipient_pubkey->0@)
                    &&& signs_all_inputs(btx.signatures@, tx, self.spec_secret(), self.spec_public_key_bytes())
                    &&& fresh_metadata(btx.metadata, TransactionType::HTLCExecute, *channel_state, fee)
                    &&& btx.proof_bundle is None
                }),
    {
        if htlc_state.status != HTLCStatus::Pending {
            return Err(TransactionError::InvalidState);
        }
        let known = match htlc_state.preimage {
            Some(k) => bytes32_eq(&k, preimage),
            None => false,
        };
        let hash = hash_preimage(preimage);
        let hashes = match htlc_state.preimage_hash {
            Some(h) => {
                proof {
                    if h@ == hash@ {
                        assert(h =~= hash);
                    }
                }
                bytes32_eq(&h, &hash)
            },
            None => false,
        };
        let matches = known || hashes;
        if !matches {
            return Err(TransactionError::InvalidProof);
        }
        let txid = match htlc_state.execution_txid {
            Some(t) => t,
            None => { return Err(TransactionError::TransactionNotFound); },
        };
        let value = htlc_state.amount - fee;
        let recipient = match htlc_state.recipient_pubkey {
            Some(k) => k,
            None => { return Err(TransactionError::InvalidScript); },
        };
        let mut tx_inputs: Vec<TxInput> = Vec::new();
        tx_inputs.push(unsigned_input(OutPoint { txid, vout: 0 }));
        let mut outputs: Vec<TxOutput> = Vec::new();
        outputs.push(TxOutput { value, script_pubkey: p2pkh_for_key(&recipient) });
        let tx = Tx { version: 2, lock_time: 0, input: tx_inputs, output: outputs };
        assert(spends_exactly(tx, seq![OutPoint { txid, vout: 0 }], 0));
        let signatures = match self.sign_transaction(&tx) {
            Ok(s) => s,
            Err(e) => { return Err(e); },
        };
        Ok(BitcoinTransaction {
            tx_data: tx,
            signatures,
            metadata: Self::new_metadata(TransactionType::HTLCExecute, channel_state, fee),
            proof_bundle: None,
        })
    }

    /// The transaction that refunds a pending HTLC once its timelock has
    /// passed: spends output 0 of the HTLC's execution transaction, is locked
    /// until the channel's height, and pays the amount, after `fee`, to the
    /// refund key. Refused when the HTLC is not pending or not yet expired,
    /// the execution transaction is unknown, or the refund key is missing, in
    /// that order.
    pub fn create_htlc_refund_transaction(
        &self,
        channel_state: &BitcoinChannelState,
        htlc_state: &HTLCState,
        fee: u64,
    ) -> (r: Result<BitcoinTransaction, TransactionError>)
        requires
            self.wf(),
            htlc_state.status == HTLCStatus::Pending && channel_state.block_height >= htlc_state.timelock
                && htlc_state.execution_txid is Some ==> fee <= htlc_state.amount,
        ensures
            htlc_state.status != HTLCStatus::Pending || channel_state.block_height < htlc_state.timelock
                ==> r == Err::<BitcoinTransaction, TransactionError>(TransactionError::InvalidState),
            htlc_state.status == HTLCStatus::Pending && channel_state.block_height >= htlc_state.timelock
                && htlc_state.execution_txid is None
                ==> r == Err::<BitcoinTransaction, TransactionError>(TransactionError::TransactionNotFound),
            htlc_state.status == HTLCStatus::Pending && channel_state.block_height >= htlc_state.timelock
                && htlc_state.execution_txid is Some && htlc_state.refund_pubkey is None
                ==> r == Err::<BitcoinTransaction, TransactionError>(TransactionError::InvalidScript),
            htlc_state.status == HTLCStatus::Pending && channel_state.block_height >= htlc_state.timelock
                && htlc_state.execution_txid is Some && htlc_state.refund_pubkey is Some
                ==> (r matches Ok(btx) && {
                    let tx = btx.tx_data;
                    &&& spends_exactly(tx, seq![OutPoint { txid: htlc_state.execution_txid->0, vout: 0 }], channel_state.block_height)
                    &&& tx.output@.len() == 1
                    &&& tx.output@[0].value == htlc_state.amount - fee
                    &&& tx.output@[0].script_pubkey@ == spec_p2pkh_for_key(htlc_state.refund_pubkey->0@)
                    &&& signs_all_inputs(btx.signatures@, tx, self.spec_secret(), self.spec_public_key_bytes())
                    &&& fresh_metadata(btx.metadata, TransactionType::HTLCRefund, *channel_state, fee)
                    &&& btx.proof_bundle is None
                }),
    {
        if htlc_state.status != HTLCStatus::Pending {
            return Err(TransactionError::InvalidState);
        }
        if channel_state.block_height < htlc_state.timelock {
            return Err(TransactionError::InvalidState);
        }
        let txid = match htlc_state.execution_txid {
            Some(t) => t,
            None => { return Err(TransactionError::TransactionNotFound); },
        };
        let value = htlc_state.amount - fee;
        let refund = match htlc_state.refund_pubkey {
            Some(k) => k,
            None => { return Err(TransactionError::InvalidScript); },
        };
        let mut tx_inputs: Vec<TxInput> = Vec::new();
        tx_inputs.push(unsigned_input(OutPoint { txid, vout: 0 }));
        let mut outputs: Vec<TxOutput> = Vec::new();
        outputs.push(TxOutput { value, script_pubkey: p2pkh_for_key(&refund) });
        let tx = Tx { version: 2, lock_time: channel_state.block_height, input: tx_inputs, output: outputs };
        assert(spends_exactly(tx, seq![OutPoint { txid, vout: 0 }], channel_state.block_height));
        let signatures = match self.sign_transaction(&tx) {
            Ok(s) => s,
            Err(e) => { return Err(e); },
        };
        Ok(BitcoinTransaction {
            tx_data: tx,
            signatures,
            metadata: Self::new_metadata(TransactionType::HTLCRefund, channel_state, fee),
            proof_bundle: None,
        })
    }

    /// The transaction that closes a channel: spends output 0 of its closure
    /// transaction and pays the balance, after `fee`, to `recipient_script`.
    pub fn create_closing_transaction(
        &self,
        channel_state: &BitcoinChannelState,
        recipient_script: Vec<u8>,
        fee: u64,
    ) -> (r: Result<BitcoinTransaction, TransactionError>)
        requires
            self.wf(),
            channel_state.metadata.closure_txid is Some ==> fee <= channel_state.balance,
        ensures
            channel_state.metadata.closure_txid is None
                ==> r == Err::<BitcoinTransaction, TransactionError>(TransactionError::TransactionNotFound),
            channel_state.metadata.closure_txid is Some ==> (r matches Ok(btx) && {
                let tx = btx.tx_data;
                &&& spends_exactly(tx, seq![OutPoint { txid: channel_state.metadata.closure_txid->0, vout: 0 }], 0)
                &&& tx.output@.len() == 1
                &&& tx.output@[0].value == channel_state.balance - fee
                &&& tx.output@[0].script_pubkey == recipient_script
                &&& signs_all_inputs(btx.signatures@, tx, self.spec_secret(), self.spec_public_key_bytes())
                &&& fresh_metadata(btx.metadata, TransactionType::ChannelClose, *channel_state, fee)
                &&& btx.proof_bundle is None
            }),
    {
        let txid = match channel_state.metadata.closure_txid {
            Some(t) => t,
            None => { return Err(TransactionError::TransactionNotFound); },
        };
        let mut tx_inputs: Vec<TxInput> = Vec::new();
        tx_inputs.push(unsigned_input(OutPoint { txid, vout: 0 }));
        let mut outputs: Vec<TxOutput> = Vec::new();
        outputs.push(TxOutput { value: channel_state.balance - fee, script_pubkey: recipient_script });
        let tx = Tx { version: 2, lock_time: 0, input: tx_inputs, output: outputs };
        assert(spends_exactly(tx, seq![OutPoint { txid, vout: 0 }], 0));
        let signatures = match self.sign_transaction(&tx) {
            Ok(s) => s,
            Err(e) => { return Err(e); },
        };
        Ok(BitcoinTransaction {
            tx_data: tx,
            signatures,
            metadata: Self::new_metadata(TransactionType::ChannelClose, channel_state, fee),
            proof_bundle: None,
        })
    }
}

/// Unsigned inputs spending `outpoints`, in order.
fn unsigned_inputs(outpoints: &Vec<OutPoint>) -> (r: Vec<TxInput>)
    ensures
        r@.len() == outpoints@.len(),
        forall|j: int|
            0 <= j < outpoints@.len() ==> {
                &&& (#[trigger] r@[j]).previous_output == outpoints@[j]
                &&& r@[j].script_sig@.len() == 0
                &&& r@[j].sequence == FINAL_SEQUENCE
            },
{
    let mut tx_inputs: Vec<TxInput> = Vec::new();
    let n = outpoints.len();
    for i in 0..n
        invariant
            n == outpoints@.len(),
            tx_inputs@.len() == i,
            forall|j: int|
                0 <= j < i ==> {
                    &&& (#[trigger] tx_inputs@[j]).previous_output == outpoints@[j]
                    &&& tx_inputs@[j].script_sig@.len() == 0
                    &&& tx_inputs@[j].sequence == FINAL_SEQUENCE
                },
    {
        tx_inputs.push(unsigned_input(outpoints[i]));
    }
    tx_inputs
}

/// When the first `i` outpoints already include an unknown one, so do all.
pub proof fn lemma_inputs_value_none_extends(utxos: Seq<(OutPoint, TxOutput)>, inputs: Seq<OutPoint>, i: int)
    requires
        0 <= i <= inputs.len(),
        inputs_value(utxos, inputs.take(i)) is None,
    ensures
        inputs_value(utxos, inputs) is None,
    decreases inputs.len() - i,
{
    if i < inputs.len() {
        assert(inputs.take(i + 1).drop_last() == inputs.take(i));
        lemma_inputs_value_none_extends(utxos, inputs, i + 1);
    } else {
        assert(inputs.take(i) == inputs);
    }
}

/// Once a prefix of the list knows an outpoint, the whole list gives the same
/// output for it.
pub proof fn lemma_lookup_prefix(utxos: Seq<(OutPoint, TxOutput)>, op: OutPoint, i: int)
    requires
        0 <= i <= utxos.len(),
        i > 0 ==> utxos[i - 1].0 == op,
        i > 0 ==> lookup_utxo(utxos.take(i - 1), op) is None,
    ensures
        i > 0 ==> lookup_utxo(utxos, op) == Some(utxos[i - 1].1),
    decreases utxos.len() - i,
{
    if i > 0 {
        assert(utxos.take(i).drop_last() == utxos.take(i - 1));
        assert(lookup_utxo(utxos.take(i), op) == Some(utxos[i - 1].1));
        lemma_lookup_extend(utxos, op, i);
    }
}

/// Overwriting the first entry for `op` changes what `op` finds and nothing else.
pub proof fn lemma_lookup_update_first(s: Seq<(OutPoint, TxOutput)>, op: OutPoint, t: TxOutput, i: int, x: OutPoint)
    requires
        0 <= i < s.len(),
        s[i].0 == op,
        lookup_utxo(s.take(i), op) is None,
    ensures
        lookup_utxo(s.update(i, (op, t)), x) == if x == op { Some(t) } else { lookup_utxo(s, x) },
{
    lemma_lookup_update_prefix(s, op, t, i, x, s.len() as int);
    assert(s.update(i, (op, t)).take(s.len() as int) == s.update(i, (op, t)));
    assert(s.take(s.len() as int) == s);
}

/// The prefixes of length `j > i` of the overwritten list agree with those
/// of the list before, except at `op`.
pub proof fn lemma_lookup_update_prefix(s: Seq<(OutPoint, TxOutput)>, op: OutPoint, t: TxOutput, i: int, x: OutPoint, j: int)
    requires
        0 <= i < j <= s.len(),
        s[i].0 == op,
        lookup_utxo(s.take(i), op) is None,
    ensures
        lookup_utxo(s.update(i, (op, t)).take(j), x) == if x == op { Some(t) } else { lookup_utxo(s.take(j), x) },
    decreases j,
{
    let u = s.update(i, (op, t));
    assert(u.take(j).drop_last() == u.take(j - 1));
    assert(s.take(j).drop_last() == s.take(j - 1));
    if j == i + 1 {
        assert(u.take(j - 1) == s.take(i));
    } else {
        lemma_lookup_update_prefix(s, op, t, i, x, j - 1);
    }
}

/// A known outpoint keeps its output when the list grows at the end.
pub proof fn lemma_lookup_extend(utxos: Seq<(OutPoint, TxOutput)>, op: OutPoint, i: int)
    requires
        0 <= i <= utxos.len(),
        lookup_utxo(utxos.take(i), op) is Some,
    ensures
        lookup_utxo(utxos, op) == lookup_utxo(utxos.take(i), op),
    decreases utxos.len() - i,
{
    if i < utxos.len() {
        assert(utxos.take(i + 1).drop_last() == utxos.take(i));
        lemma_lookup_extend(utxos, op, i + 1);
    } else {
        assert(utxos.take(i) == utxos);
    }
}

} // verus!
