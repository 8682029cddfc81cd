use vstd::prelude::*;

verus! {

/// A reference to an output of an earlier transaction.
#[derive(Clone, Copy, Debug, PartialEq, Eq)]
pub struct OutPoint {
    pub txid: [u8; 32],
    pub vout: u32,
}

/// A transaction input.
#[derive(Clone, Debug)]
pub struct TxInput {
    pub previous_output: OutPoint,
    pub script_sig: Vec<u8>,
    pub sequence: u32,
}

/// A transaction output: an amount in satoshis locked by a script.
#[derive(Clone, Debug)]
pub struct TxOutput {
    pub value: u64,
    pub script_pubkey: Vec<u8>,
}

/// A Bitcoin transaction.
#[derive(Clone, Debug)]
pub struct Tx {
    pub version: i32,
    pub lock_time: u32,
    pub input: Vec<TxInput>,
    pub output: Vec<TxOutput>,
}

/// The sequence number that disables relative lock times.
pub const FINAL_SEQUENCE: u32 = 0xFFFF_FFFF;

/// Compares two 32-byte strings.
pub fn bytes32_eq(a: &[u8; 32], b: &[u8; 32]) -> (r: bool)
    ensures
        r == (*a == *b),
{
    let mut i: usize = 0;
    while i < 32
        invariant
            i <= 32,
            a@.len() == 32,
            b@.len() == 32,
            forall|j: int| 0 <= j < i ==> a@[j] == b@[j],
        decreases 32 - i,
    {
        if a[i] != b[i] {
            assert(a@[i as int] != b@[i as int]);
            return false;
        }
        i = i + 1;
    }
    assert(*a =~= *b);
    true
}

/// Compares two 33-byte strings.
pub fn bytes33_eq(a: &[u8; 33], b: &[u8; 33]) -> (r: bool)
    ensures
        r == (*a == *b),
{
    let mut i: usize = 0;
    while i < 33
        invariant
            i <= 33,
            a@.len() == 33,
            b@.len() == 33,
            forall|j: int| 0 <= j < i ==> a@[j] == b@[j],
        decreases 33 - i,
    {
        if a[i] != b[i] {
            assert(a@[i as int] != b@[i as int]);
            return false;
        }
        i = i + 1;
    }
    assert(*a =~= *b);
    true
}

/// Compares two outpoints.
pub fn outpoint_eq(a: &OutPoint, b: &OutPoint) -> (r: bool)
    ensures
        r == (*a == *b),
{
    bytes32_eq(&a.txid, &b.txid) && a.vout == b.vout
}

/// An input spending `outpoint` with an empty script and the final sequence.
pub fn unsigned_input(outpoint: OutPoint) -> (r: TxInput)
    ensures
        r.previous_output == outpoint,
        r.script_sig@.len() == 0,
        r.sequence == FINAL_SEQUENCE,
{
    TxInput { previous_output: outpoint, script_sig: Vec::new(), sequence: FINAL_SEQUENCE }
}

/// RIPEMD-160 of SHA-256, as `bitcoin_hashes` computes it.
pub uninterp spec fn spec_hash160(data: Seq<u8>) -> Seq<u8>;

/// Calls `bitcoin_hashes::hash160::Hash::hash` on `data`.
/// Claimed: the 20-byte result is HASH160 of `data` (named `spec_hash160`).
#[verifier::external_body]
pub(crate) fn hash160(data: &[u8]) -> (r: [u8; 20])
    ensures
        r@ == spec_hash160(data@),
{
    let h = <bitcoin_hashes::hash160::Hash as bitcoin_hashes::Hash>::hash(data);
    <bitcoin_hashes::hash160::Hash as bitcoin_hashes::Hash>::to_byte_array(h)
}

/// The pay-to-public-key-hash locking script for a 20-byte key hash:
/// OP_DUP OP_HASH160 <push 20> hash OP_EQUALVERIFY OP_CHECKSIG.
pub open spec fn spec_p2pkh_script(pubkey_hash: Seq<u8>) -> Seq<u8> {
    seq![0x76u8, 0xa9u8, 0x14u8] + pubkey_hash + seq![0x88u8, 0xacu8]
}

/// The pay-to-public-key-hash script paying the key whose serialisation is given.
pub open spec fn spec_p2pkh_for_key(pubkey: Seq<u8>) -> Seq<u8> {
    spec_p2pkh_script(spec_hash160(pubkey))
}

/// The pay-to-public-key-hash locking script for `pubkey_hash`.
pub fn p2pkh_script(pubkey_hash: &[u8; 20]) -> (r: Vec<u8>)
    ensures
        r@ == spec_p2pkh_script(pubkey_hash@),
{
    let mut s: Vec<u8> = Vec::new();
    s.push(0x76u8);
    s.push(0xa9u8);
    s.push(0x14u8);
    let mut i: usize = 0;
    while i < 20
        invariant
            i <= 20,
            pubkey_hash@.len() == 20,
            s@ == seq![0x76u8, 0xa9u8, 0x14u8] + pubkey_hash@.take(i as int),
        decreases 20 - i,
    {
        s.push(pubkey_hash[i]);
        assert(pubkey_hash@.take(i + 1) == pubkey_hash@.take(i as int).push(pubkey_hash@[i as int]));
        i = i + 1;
    }
    assert(pubkey_hash@.take(20) == pubkey_hash@);
    s.push(0x88u8);
    s.push(0xacu8);
    s
}

/// The pay-to-public-key-hash script for a compressed public key.
pub fn p2pkh_for_key(pubkey: &[u8; 33]) -> (r: Vec<u8>)
    ensures
        r@ == spec_p2pkh_for_key(pubkey@),
{
    let h = hash160(pubkey.as_slice());
    p2pkh_script(&h)
}

/// The compressed public key of a secret key, or `None` when the 32 bytes are
/// not a valid secret key.
pub uninterp spec fn spec_public_key(secret: Seq<u8>) -> Option<Seq<u8>>;

/// Calls `secp256k1::SecretKey::from_slice` and `PublicKey::from_secret_key`,
/// then `serialize`.
/// Claimed: `None` exactly when `SecretKey::from_slice` rejects the bytes;
/// otherwise the 33-byte compressed key, a function of the secret alone
/// (named `spec_public_key`), which parses again as a public key.
#[verifier::external_body]
pub(crate) fn public_key_of(secret: &[u8; 32]) -> (r: Option<[u8; 33]>)
    ensures
        r is None <==> spec_public_key(secret@) is None,
        r matches Some(p) ==> spec_public_key(secret@) == Some(p@),
        r matches Some(p) ==> spec_valid_public_key(p@),
{
    let sk = secp256k1::SecretKey::from_slice(secret).ok()?;
    Some(secp256k1::PublicKey::from_secret_key(&secp256k1::Secp256k1::signing_only(), &sk).serialize())
}

/// Whether 33 bytes are a valid compressed point on the secp256k1 curve.
pub uninterp spec fn spec_valid_public_key(bytes: Seq<u8>) -> bool;

/// Calls `secp256k1::PublicKey::from_slice`.
/// Claimed: true exactly when the bytes parse as a public key (named
/// `spec_valid_public_key`).
#[verifier::external_body]
pub(crate) fn is_valid_public_key(bytes: &[u8; 33]) -> (r: bool)
    ensures
        r == spec_valid_public_key(bytes@),
{
    secp256k1::PublicKey::from_slice(bytes).is_ok()
}

/// The compact ECDSA signature (RFC 6979 nonce) of a 32-byte digest, or `None`
/// when the secret is not a valid key.
pub uninterp spec fn spec_ecdsa_sign(secret: Seq<u8>, digest: Seq<u8>) -> Option<Seq<u8>>;

/// Calls `secp256k1::Secp256k1::sign_ecdsa` and `Signature::serialize_compact`.
/// Claimed: `None` exactly when `SecretKey::from_slice` rejects the secret;
/// otherwise the 64-byte signature, which RFC 6979 makes a function of the
/// secret and digest alone (named `spec_ecdsa_sign`).
#[verifier::external_body]
pub(crate) fn ecdsa_sign(secret: &[u8; 32], digest: &[u8; 32]) -> (r: Option<[u8; 64]>)
    ensures
        r is None <==> spec_ecdsa_sign(secret@, digest@) is None,
        r matches Some(t) ==> spec_ecdsa_sign(secret@, digest@) == Some(t@),
        r is None <==> spec_public_key(secret@) is None,
{
    let sk = secp256k1::SecretKey::from_slice(secret).ok()?;
    let msg = secp256k1::Message::from_digest(*digest);
    Some(secp256k1::Secp256k1::signing_only().sign_ecdsa(&msg, &sk).serialize_compact())
}

/// An input as its outpoint, script bytes and sequence number.
pub type TxInView = (OutPoint, Seq<u8>, u32);

/// An output as its value and script bytes.
pub type TxOutView = (u64, Seq<u8>);

/// A transaction as its version, lock time, inputs and outputs.
pub type TransactionView = (i32, u32, Seq<TxInView>, Seq<TxOutView>);

impl View for TxInput {
    type V = TxInView;

    open spec fn view(&self) -> TxInView {
        (self.previous_output, self.script_sig@, self.sequence)
    }
}

impl View for TxOutput {
    type V = TxOutView;

    open spec fn view(&self) -> TxOutView {
        (self.value, self.script_pubkey@)
    }
}

impl View for Tx {
    type V = TransactionView;

    open spec fn view(&self) -> TransactionView {
        (
            self.version,
            self.lock_time,
            self.input@.map_values(|i: TxInput| i@),
            self.output@.map_values(|o: TxOutput| o@),
        )
    }
}

/// Declares `bitcoin::Transaction` to Verus, as an opaque type.
#[verifier::external_type_specification]
#[verifier::external_body]
pub struct ExBitcoinTransaction(bitcoin::Transaction);

/// Declares `bitcoin::TxIn` to Verus, as an opaque type.
#[verifier::external_type_specification]
#[verifier::external_body]
pub struct ExBitcoinTxIn(bitcoin::TxIn);

/// Declares `bitcoin::TxOut` to Verus, as an opaque type.
#[verifier::external_type_specification]
#[verifier::external_body]
pub struct ExBitcoinTxOut(bitcoin::TxOut);

/// Builds a `bitcoin::TxIn` from an input field by field (no witness).
/// Claims nothing of the result.
#[verifier::external_body]
fn bitcoin_input_of(i: &TxInput) -> bitcoin::TxIn {
    bitcoin::TxIn {
        previous_output: bitcoin::OutPoint {
            txid: <bitcoin::Txid as bitcoin::hashes::Hash>::from_byte_array(i.previous_output.txid),
            vout: i.previous_output.vout,
        },
        script_sig: bitcoin::ScriptBuf::from_bytes(i.script_sig.clone()),
        sequence: bitcoin::Sequence(i.sequence),
        witness: bitcoin::Witness::new(),
    }
}

/// Builds a `bitcoin::TxOut` from an output field by field.
/// Claims nothing of the result.
#[verifier::external_body]
fn bitcoin_output_of(o: &TxOutput) -> bitcoin::TxOut {
    bitcoin::TxOut {
        value: bitcoin::Amount::from_sat(o.value),
        script_pubkey: bitcoin::ScriptBuf::from_bytes(o.script_pubkey.clone()),
    }
}

/// Builds a `bitcoin::Transaction` from its version, lock time (by
/// `LockTime::from_consensus`), inputs and outputs. Claims nothing of the
/// result.
#[verifier::external_body]
fn assemble_bitcoin_transaction(
    version: i32,
    lock_time: u32,
    input: Vec<bitcoin::TxIn>,
    output: Vec<bitcoin::TxOut>,
) -> bitcoin::Transaction {
    bitcoin::Transaction {
        version: bitcoin::transaction::Version(version),
        lock_time: bitcoin::absolute::LockTime::from_consensus(lock_time),
        input,
        output,
    }
}

/// A transaction together with the `bitcoin::Transaction` built from it,
/// input by input and output by output, so that the `bitcoin` crate can hash
/// it.
pub struct ConvertedTransaction {
    model: Tx,
    pub(crate) converted: bitcoin::Transaction,
}

impl ConvertedTransaction {
    /// The transaction that was converted.
    pub closed spec fn model(&self) -> TransactionView {
        self.model@
    }

    /// Converts a transaction.
    pub fn new(tx: &Tx) -> (r: Self)
        ensures
            r.model() == tx@,
    {
        let mut input: Vec<bitcoin::TxIn> = Vec::new();
        let n = tx.input.len();
        for i in 0..n
            invariant
                n == tx.input@.len(),
        {
            input.push(bitcoin_input_of(&tx.input[i]));
        }
        let mut output: Vec<bitcoin::TxOut> = Vec::new();
        let m = tx.output.len();
        for i in 0..m
            invariant
                m == tx.output@.len(),
        {
            output.push(bitcoin_output_of(&tx.output[i]));
        }
        let converted = assemble_bitcoin_transaction(tx.version, tx.lock_time, input, output);
        ConvertedTransaction { model: copy_transaction(tx), converted }
    }
}

/// The legacy digest of input `index` of a transaction, signed against an
/// empty script code, for the sighash type `sighash_type` (1 is ALL,
/// committing to every input and output).
pub uninterp spec fn spec_legacy_sighash(tx: TransactionView, index: int, sighash_type: u32) -> Seq<u8>;

/// The sighash type that commits to every input and output.
pub const SIGHASH_ALL: u32 = 1;

/// Calls `SighashCache::legacy_signature_hash` on the converted transaction
/// with an empty script and the given sighash type.
/// Claimed: the 32-byte digest depends on the transaction, index and type
/// alone (named `spec_legacy_sighash`); the call fails only for an index
/// past the inputs, which `requires` rules out.
#[verifier::external_body]
pub(crate) fn legacy_sighash_all(tx: &ConvertedTransaction, index: usize, sighash_type: u32) -> (r: [u8; 32])
    requires
        index < tx.model().2.len(),
    ensures
        r@ == spec_legacy_sighash(tx.model(), index as int, sighash_type),
{
    let cache = bitcoin::sighash::SighashCache::new(&tx.converted);
    let h = cache.legacy_signature_hash(index, bitcoin::Script::new(), sighash_type).unwrap();
    <bitcoin::sighash::LegacySighash as bitcoin::hashes::Hash>::to_byte_array(h)
}

/// The id of a transaction: double SHA-256 of its serialisation without
/// witnesses, in the byte order `bitcoin` stores it.
pub uninterp spec fn spec_txid(tx: TransactionView) -> Seq<u8>;

/// Calls `bitcoin::Transaction::compute_txid` on the converted transaction.
/// Claimed: the 32 bytes depend on the transaction alone (named `spec_txid`).
#[verifier::external_body]
pub(crate) fn txid_of(tx: &ConvertedTransaction) -> (r: [u8; 32])
    ensures
        r@ == spec_txid(tx.model()),
{
    <bitcoin::Txid as bitcoin::hashes::Hash>::to_byte_array(tx.converted.compute_txid())
}

/// Draws a fresh secret key with `secp256k1::SecretKey::new` from the thread's
/// random generator and returns its compressed public key.
/// Claimed: the 33 bytes are a valid public key; which key comes back is left
/// open, as it rests on chance.
#[verifier::external_body]
pub(crate) fn random_public_key() -> (r: [u8; 33])
    ensures
        spec_valid_public_key(r@),
{
    let sk = secp256k1::SecretKey::new(&mut secp256k1::rand::thread_rng());
    secp256k1::PublicKey::from_secret_key(&secp256k1::Secp256k1::signing_only(), &sk).serialize()
}

/// A copy of a byte vector.
pub fn copy_bytes(v: &Vec<u8>) -> (r: Vec<u8>)
    ensures
        r@ == v@,
{
    let mut out: Vec<u8> = Vec::new();
    let n = v.len();
    for i in 0..n
        invariant
            n == v@.len(),
            out@ == v@.take(i as int),
    {
        out.push(v[i]);
        assert(v@.take(i + 1) == v@.take(i as int).push(v@[i as int]));
    }
    assert(v@.take(n as int) == v@);
    out
}

/// A copy of a transaction.
pub fn copy_transaction(tx: &Tx) -> (r: Tx)
    ensures
        r@ == tx@,
{
    let mut input: Vec<TxInput> = Vec::new();
    let n = tx.input.len();
    for i in 0..n
        invariant
            n == tx.input@.len(),
            input@.len() == i,
            forall|j: int| 0 <= j < i ==> (#[trigger] input@[j])@ == tx.input@[j]@,
    {
        let src = &tx.input[i];
        input.push(TxInput { previous_output: src.previous_output, script_sig: copy_bytes(&src.script_sig), sequence: src.sequence });
    }
    let mut output: Vec<TxOutput> = Vec::new();
    let m = tx.output.len();
    for i in 0..m
        invariant
            m == tx.output@.len(),
            output@.len() == i,
            forall|j: int| 0 <= j < i ==> (#[trigger] output@[j])@ == tx.output@[j]@,
    {
        let src = &tx.output[i];
        output.push(TxOutput { value: src.value, script_pubkey: copy_bytes(&src.script_pubkey) });
    }
    let r = Tx { version: tx.version, lock_time: tx.lock_time, input, output };
    assert(r.input@.map_values(|i: TxInput| i@) =~= tx.input@.map_values(|i: TxInput| i@));
    assert(r.output@.map_values(|o: TxOutput| o@) =~= tx.output@.map_values(|o: TxOutput| o@));
    r
}

} // verus!
