use vstd::prelude::*;

use crate::btc::{
    bytes32_eq, copy_bytes, copy_transaction, public_key_of, spec_public_key, unsigned_input, ConvertedTransaction,
    OutPoint, Tx, TxInput, TxInView, TxOutput, FINAL_SEQUENCE, SIGHASH_ALL,
};
use crate::script::{append_push, spec_push_bytes};

verus! {

/// An unspent output as a node reports it: where it is, its locking script
/// and its value in satoshis.
#[derive(Clone, Debug)]
pub struct UnspentOutput {
    pub outpoint: OutPoint,
    pub script_pubkey: Vec<u8>,
    pub amount: u64,
}

/// Why building or signing a lock transaction failed.
#[derive(Clone, Copy, Debug, PartialEq, Eq, Structural)]
pub enum LockTxError {
    InsufficientFunds,
    UtxoNotFound,
    /// The 32 bytes given as the signing key are not a valid secret key.
    InvalidKey,
}

/// The total value of the first `m` outputs.
pub open spec fn prefix_total(utxos: Seq<UnspentOutput>, m: int) -> int
    decreases m,
{
    if m <= 0 {
        0
    } else {
        prefix_total(utxos, m - 1) + utxos[m - 1].amount
    }
}

/// How many outputs, taken in order from the `m`-th on, the selection ends
/// with: it stops after the first output whose running total reaches
/// `required`, or at the end of the list.
pub open spec fn pick_count(utxos: Seq<UnspentOutput>, required: int, m: int) -> int
    decreases utxos.len() - m,
{
    if m >= utxos.len() {
        utxos.len() as int
    } else if prefix_total(utxos, m + 1) >= required {
        m + 1
    } else {
        pick_count(utxos, required, m + 1)
    }
}

/// The segregated-witness (version 0) digest of input `index` committing to
/// `script_code` and the spent `value`, for the sighash type `sighash_type`
/// (1 is ALL, committing to every input and output).
pub uninterp spec fn spec_segwit_sighash(
    tx: (i32, u32, Seq<TxInView>, Seq<(u64, Seq<u8>)>),
    index: int,
    script_code: Seq<u8>,
    value: u64,
    sighash_type: u32,
) -> Seq<u8>;

/// The DER-encoded ECDSA signature (RFC 6979 nonce) of a 32-byte digest.
pub uninterp spec fn spec_ecdsa_sign_der(secret: Seq<u8>, digest: Seq<u8>) -> Seq<u8>;

/// The pay-to-public-key-hash unlocking script: a push of the signature,
/// then a push of the public key.
pub open spec fn spec_p2pkh_script_sig(signature: Seq<u8>, pubkey: Seq<u8>) -> Seq<u8> {
    spec_push_bytes(signature) + spec_push_bytes(pubkey)
}

/// Calls `SighashCache::p2wsh_signature_hash` on the converted transaction
/// with `script_code`, `value` and the sighash type read by
/// `EcdsaSighashType::from_consensus`. Claimed: the digest depends on these
/// alone (named `spec_segwit_sighash`); the call fails only for an index
/// past the inputs, which `requires` rules out.
#[verifier::external_body]
fn segwit_sighash_all(tx: &ConvertedTransaction, index: usize, script_code: &Vec<u8>, value: u64, sighash_type: u32) -> (r:
    [u8; 32])
    requires
        index < tx.model().2.len(),
    ensures
        r@ == spec_segwit_sighash(tx.model(), index as int, script_code@, value, sighash_type),
{
    let script = bitcoin::ScriptBuf::from_bytes(script_code.clone());
    let mut cache = bitcoin::sighash::SighashCache::new(&tx.converted);
    let kind = bitcoin::EcdsaSighashType::from_consensus(sighash_type);
    let h = cache.p2wsh_signature_hash(index, &script, bitcoin::Amount::from_sat(value), kind);
    <bitcoin::sighash::SegwitV0Sighash as bitcoin::hashes::Hash>::to_byte_array(h.unwrap())
}

/// Calls `Secp256k1::sign_ecdsa` and `Signature::serialize_der`. Claimed: for
/// a valid secret (which `requires` asks) the DER bytes, at most 72 of them
/// (`serialized_signature::MAX_LEN`), depend on the secret and digest alone
/// (named `spec_ecdsa_sign_der`).
#[verifier::external_body]
fn ecdsa_sign_der(secret: &[u8; 32], digest: &[u8; 32]) -> (r: Vec<u8>)
    requires
        spec_public_key(secret@) is Some,
    ensures
        r@ == spec_ecdsa_sign_der(secret@, digest@),
        r@.len() <= 72,
{
    let sk = secp256k1::SecretKey::from_slice(secret).unwrap();
    let msg = secp256k1::Message::from_digest(*digest);
    secp256k1::Secp256k1::signing_only().sign_ecdsa(&msg, &sk).serialize_der().to_vec()
}

/// The unlocking script pushing `signature` (at most 73 bytes) then
/// `pubkey`.
fn p2pkh_script_sig(signature: &Vec<u8>, pubkey: &[u8; 33]) -> (r: Vec<u8>)
    requires
        signature@.len() <= 73,
    ensures
        r@ == spec_p2pkh_script_sig(signature@, pubkey@),
{
    let mut s: Vec<u8> = Vec::new();
    append_push(&mut s, signature.as_slice());
    append_push(&mut s, pubkey.as_slice());
    s
}

/// What the unlocking script of a signed lock-transaction input holds: a
/// push of the DER signature over the input's SIGHASH_ALL digest (sighash
/// type 1, committing to every input and output) followed by the byte 0x01
/// that declares that same type, then a push of the 33-byte public key.
pub proof fn lemma_lock_signature_commits_to_all(tx: Tx, i: int, utxo: UnspentOutput, secret: Seq<u8>, pubkey: [u8; 33])
    ensures
        ({
            let d = spec_ecdsa_sign_der(secret, spec_segwit_sighash(tx@, i, utxo.script_pubkey@, utxo.amount, 1u32));
            input_script_sig(tx, i, utxo, secret, pubkey@) == seq![(d.len() + 1) as u8] + d + seq![0x01u8, 0x21u8]
                + pubkey@
        }),
{
    let d = spec_ecdsa_sign_der(secret, spec_segwit_sighash(tx@, i, utxo.script_pubkey@, utxo.amount, 1u32));
    assert(input_script_sig(tx, i, utxo, secret, pubkey@) =~= seq![(d.len() + 1) as u8] + d + seq![0x01u8, 0x21u8]
        + pubkey@);
}

/// The position of the last reported output of transaction `txid`, the one
/// a map built from the list in order keeps.
pub open spec fn last_with_txid(utxos: Seq<UnspentOutput>, txid: [u8; 32]) -> Option<int>
    decreases utxos.len(),
{
    if utxos.len() == 0 {
        None
    } else if utxos.last().outpoint.txid == txid {
        Some(utxos.len() - 1)
    } else {
        last_with_txid(utxos.drop_last(), txid)
    }
}

/// The unlocking script of input `i`: the DER signature over the input's
/// segregated-witness digest, with the SIGHASH_ALL byte appended, then the
/// signer's public key.
pub open spec fn input_script_sig(
    tx: Tx,
    i: int,
    utxo: UnspentOutput,
    secret: Seq<u8>,
    pubkey: Seq<u8>,
) -> Seq<u8> {
    spec_p2pkh_script_sig(
        spec_ecdsa_sign_der(secret, spec_segwit_sighash(tx@, i, utxo.script_pubkey@, utxo.amount, SIGHASH_ALL)).push(
            SIGHASH_ALL as u8,
        ),
        pubkey,
    )
}

/// Builds the unsigned transaction that moves `amount` to `to_script`: it
/// spends the reported outputs in order until they cover `amount` plus
/// `fee` (refused when all of them do not), and sends any change back to
/// `from_script`.
pub fn create_lock_transaction(
    utxos: &Vec<UnspentOutput>,
    from_script: &Vec<u8>,
    to_script: &Vec<u8>,
    amount: u64,
    fee: u64,
) -> (r: Result<Tx, LockTxError>)
    requires
        amount + fee <= u64::MAX,
        prefix_total(utxos@, pick_count(utxos@, amount + fee, 0)) <= u64::MAX,
    ensures
        ({
            let m = pick_count(utxos@, amount + fee, 0);
            let total = prefix_total(utxos@, m);
            if total < amount + fee {
                r matches Err(e) && e == LockTxError::InsufficientFunds
            } else {
                r matches Ok(tx) && {
                    &&& tx.version == 2
                    &&& tx.lock_time == 0
                    &&& tx.input@.len() == m
                    &&& forall|k: int|
                        0 <= k < m ==> {
                            &&& (#[trigger] tx.input@[k]).previous_output == utxos@[k].outpoint
                            &&& tx.input@[k].script_sig@.len() == 0
                            &&& tx.input@[k].sequence == FINAL_SEQUENCE
                        }
                    &&& tx@.3 == if total - amount - fee > 0 {
                        seq![(amount, to_script@), ((total - amount - fee) as u64, from_script@)]
                    } else {
                        seq![(amount, to_script@)]
                    }
                }
            }
        }),
{
    let required = amount + fee;
    let n = utxos.len();
    let mut total: u64 = 0;
    let mut count: usize = 0;
    proof {
        lemma_prefix_total_monotone(utxos@, pick_count(utxos@, required as int, 0));
        lemma_pick_count_bounds(utxos@, required as int, 0);
    }
    while count < n
        invariant_except_break
            pick_count(utxos@, required as int, 0) == pick_count(utxos@, required as int, count as int),
        invariant
            n == utxos@.len(),
            count <= n,
            total == prefix_total(utxos@, count as int),
            prefix_total(utxos@, pick_count(utxos@, required as int, 0)) <= u64::MAX,
            forall|m: int| 0 <= m <= pick_count(utxos@, required as int, 0) ==> prefix_total(utxos@, m) <= u64::MAX,
            count <= pick_count(utxos@, required as int, 0),
        ensures
            count == pick_count(utxos@, required as int, 0),
        decreases n - count,
    {
        proof { lemma_pick_count_bounds(utxos@, required as int, count as int + 1); }
        total = total + utxos[count].amount;
        count = count + 1;
        if total >= required {
            break;
        }
    }
    if total < required {
        return Err(LockTxError::InsufficientFunds);
    }
    let mut inputs: Vec<TxInput> = Vec::new();
    for k in 0..count
        invariant
            count <= n,
            n == utxos@.len(),
            inputs@.len() == k,
            forall|j: int|
                0 <= j < k ==> {
                    &&& (#[trigger] inputs@[j]).previous_output == utxos@[j].outpoint
                    &&& inputs@[j].script_sig@.len() == 0
                    &&& inputs@[j].sequence == FINAL_SEQUENCE
                },
    {
        inputs.push(unsigned_input(utxos[k].outpoint));
    }
    let change = total - amount - fee;
    let mut outputs: Vec<TxOutput> = Vec::new();
    outputs.push(TxOutput { value: amount, script_pubkey: copy_bytes(to_script) });
    if change > 0 {
        outputs.push(TxOutput { value: change, script_pubkey: copy_bytes(from_script) });
    }
    let tx = Tx { version: 2, lock_time: 0, input: inputs, output: outputs };
    assert(tx@.3 =~= if change > 0 {
        seq![(amount, to_script@), (change, from_script@)]
    } else {
        seq![(amount, to_script@)]
    });
    Ok(tx)
}

/// The reported output `find_spent_output` finds for a transaction id.
fn find_spent_output(utxos: &Vec<UnspentOutput>, txid: &[u8; 32]) -> (r: Option<usize>)
    ensures
        r is None <==> last_with_txid(utxos@, *txid) is None,
        r matches Some(i) ==> i < utxos@.len() && last_with_txid(utxos@, *txid) == Some(i as int),
{
    let mut i = utxos.len();
    assert(utxos@.take(i as int) == utxos@);
    while i > 0
        invariant
            i <= utxos@.len(),
            last_with_txid(utxos@, *txid) == last_with_txid(utxos@.take(i as int), *txid),
        decreases i,
    {
        assert(utxos@.take(i as int).drop_last() == utxos@.take(i - 1));
        assert(utxos@.take(i as int).last() == utxos@[i - 1]);
        if bytes32_eq(&utxos[i - 1].outpoint.txid, txid) {
            return Some(i - 1);
        }
        i = i - 1;
    }
    None
}

/// Signs every input of `tx` as a pay-to-public-key-hash spend with
/// `secret`: each input's unlocking script pushes the DER signature (with
/// the SIGHASH_ALL byte) over its segregated-witness digest for the
/// reported output of the same transaction id, then the public key.
/// Refused when the key is not a valid secret key, or when an input's
/// transaction has no reported output. The digests
/// are taken over `tx` as given, since they do not depend on unlocking
/// scripts.
pub fn sign_lock_transaction(tx: &Tx, utxos: &Vec<UnspentOutput>, secret: &[u8; 32]) -> (r: Result<Tx, LockTxError>)
    ensures
        spec_public_key(secret@) is None ==> (r matches Err(e) && e == LockTxError::InvalidKey),
        spec_public_key(secret@) is Some && (exists|i: int| 0 <= i < tx.input@.len() && last_with_txid(utxos@, (#[trigger] tx.input@[i]).previous_output.txid) is None)
            ==> (r matches Err(e) && e == LockTxError::UtxoNotFound),
        spec_public_key(secret@) is Some && (forall|i: int| 0 <= i < tx.input@.len() ==> last_with_txid(utxos@, (#[trigger] tx.input@[i]).previous_output.txid) is Some)
            ==> (r matches Ok(signed) && {
            &&& signed.version == tx.version
            &&& signed.lock_time == tx.lock_time
            &&& signed@.3 == tx@.3
            &&& signed.input@.len() == tx.input@.len()
            &&& forall|i: int|
                0 <= i < tx.input@.len() ==> {
                    &&& (#[trigger] signed.input@[i]).previous_output == tx.input@[i].previous_output
                    &&& signed.input@[i].sequence == tx.input@[i].sequence
                    &&& signed.input@[i].script_sig@ == input_script_sig(
                        *tx,
                        i,
                        utxos@[last_with_txid(utxos@, tx.input@[i].previous_output.txid)->0],
                        secret@,
                        spec_public_key(secret@)->0,
                    )
                }
        }),
{
    let pubkey = match public_key_of(secret) {
        Some(p) => p,
        None => { return Err(LockTxError::InvalidKey); },
    };
    let converted = ConvertedTransaction::new(tx);
    let mut inputs: Vec<TxInput> = Vec::new();
    let n = tx.input.len();
    for i in 0..n
        invariant
            n == tx.input@.len(),
            converted.model() == tx@,
            Some(pubkey@) == spec_public_key(secret@),
            inputs@.len() == i,
            forall|j: int| 0 <= j < i ==> last_with_txid(utxos@, (#[trigger] tx.input@[j]).previous_output.txid) is Some,
            forall|j: int|
                0 <= j < i ==> {
                    &&& (#[trigger] inputs@[j]).previous_output == tx.input@[j].previous_output
                    &&& inputs@[j].sequence == tx.input@[j].sequence
                    &&& inputs@[j].script_sig@ == input_script_sig(
                        *tx,
                        j,
                        utxos@[last_with_txid(utxos@, tx.input@[j].previous_output.txid)->0],
                        secret@,
                        pubkey@,
                    )
                },
    {
        let input = &tx.input[i];
        let k = match find_spent_output(utxos, &input.previous_output.txid) {
            Some(k) => k,
            None => { return Err(LockTxError::UtxoNotFound); },
        };
        let utxo = &utxos[k];
        assert(tx@.2.len() == tx.input@.len());
        let digest = segwit_sighash_all(&converted, i, &utxo.script_pubkey, utxo.amount, SIGHASH_ALL);
        let mut signature = ecdsa_sign_der(secret, &digest);
        signature.push(SIGHASH_ALL as u8);
        let script_sig = p2pkh_script_sig(&signature, &pubkey);
        proof {
            let idx = last_with_txid(utxos@, tx.input@[i as int].previous_output.txid)->0;
            assert(k as int == idx);
            assert(script_sig@ == input_script_sig(*tx, i as int, utxos@[idx], secret@, pubkey@));
        }
        inputs.push(TxInput { previous_output: input.previous_output, script_sig, sequence: input.sequence });
    }
    let signed = Tx { version: tx.version, lock_time: tx.lock_time, input: inputs, output: copy_transaction(tx).output };
    Ok(signed)
}

/// The selection ends no earlier than where it starts and no later than the
/// end of the list.
pub proof fn lemma_pick_count_bounds(utxos: Seq<UnspentOutput>, required: int, m: int)
    requires
        0 <= m <= utxos.len(),
    ensures
        m <= pick_count(utxos, required, m) <= utxos.len(),
    decreases utxos.len() - m,
{
    if m < utxos.len() && prefix_total(utxos, m + 1) < required {
        lemma_pick_count_bounds(utxos, required, m + 1);
    }
}

/// Running totals never shrink, so every total up to the last fits when the
/// last does.
pub proof fn lemma_prefix_total_monotone(utxos: Seq<UnspentOutput>, m: int)
    ensures
        forall|k: int| 0 <= k <= m ==> prefix_total(utxos, k) <= prefix_total(utxos, m),
    decreases m,
{
    if m > 0 {
        lemma_prefix_total_monotone(utxos, m - 1);
    }
}

} // verus!
