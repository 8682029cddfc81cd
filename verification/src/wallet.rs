use vstd::prelude::*;

use crate::bitcoin_types::BitcoinNetwork;
use crate::btc::{
    p2pkh_for_key, public_key_of, spec_p2pkh_for_key, spec_public_key, unsigned_input, OutPoint, Tx, TxInput,
    TxOutput, FINAL_SEQUENCE,
};
use crate::client_proofs::{BitcoinProofBundle, BitcoinProofType, BitcoinZkProof};
use crate::clock::current_timestamp;
use crate::hashing::{sha256_digest, spec_sha256};

verus! {

/// An output the wallet can spend.
#[derive(Clone, Debug)]
pub struct BitcoinUTXO {
    pub txid: [u8; 32],
    pub vout: u32,
    pub amount: u64,
    pub script_pubkey: Vec<u8>,
    pub confirmation_height: u32,
}

/// The balances, outputs and chain position of a wallet. No output occurs
/// twice in `utxo_set`.
#[derive(Clone, Debug)]
pub struct BitcoinWalletState {
    pub balance: u64,
    pub nonce: u64,
    pub locked_balance: u64,
    pub merkle_root: [u8; 32],
    pub last_update: u64,
    pub utxo_set: Vec<BitcoinUTXO>,
    pub block_height: u32,
}

/// The limits a wallet works within.
#[derive(Clone, Copy, Debug)]
pub struct BitcoinWalletConfig {
    pub network: BitcoinNetwork,
    pub min_confirmation: u32,
    pub dust_threshold: u64,
    pub fee_rate: u64,
    pub max_channel_size: u64,
    pub min_channel_size: u64,
    pub max_channels: u32,
    pub dispute_period: u32,
}

/// Why a wallet operation was refused.
#[derive(Clone, Copy, Debug, PartialEq, Eq, Structural)]
pub enum WalletError {
    InsufficientFunds,
    InvalidState,
    InvalidProof,
    ChannelError,
    InvalidTransaction,
    InvalidSignature,
    ChannelNotFound,
    UTXONotFound,
    InvalidAmount,
    MaxChannelsReached,
    InvalidChannelSize,
}

/// An output as the values that tell it apart.
pub open spec fn utxo_view(u: BitcoinUTXO) -> ([u8; 32], u32, u64, Seq<u8>, u32) {
    (u.txid, u.vout, u.amount, u.script_pubkey@, u.confirmation_height)
}

/// The outputs of a set, as values.
pub open spec fn utxo_set_view(s: Seq<BitcoinUTXO>) -> Set<([u8; 32], u32, u64, Seq<u8>, u32)> {
    s.map_values(|u: BitcoinUTXO| utxo_view(u)).to_set()
}

/// An output has the confirmations the wallet asks for at `height`.
pub open spec fn is_confirmed(u: BitcoinUTXO, min_confirmation: u32, height: u32) -> bool {
    u.confirmation_height + min_confirmation <= height
}

/// The positions of the confirmed outputs, in order.
pub open spec fn confirmed_positions(utxos: Seq<BitcoinUTXO>, min_confirmation: u32, height: u32) -> Seq<usize>
    decreases utxos.len(),
{
    if utxos.len() == 0 {
        Seq::empty()
    } else {
        let rest = confirmed_positions(utxos.drop_last(), min_confirmation, height);
        if is_confirmed(utxos.last(), min_confirmation, height) {
            rest.push((utxos.len() - 1) as usize)
        } else {
            rest
        }
    }
}

/// The total amount of the outputs at the given positions.
pub open spec fn amount_total(utxos: Seq<BitcoinUTXO>, sel: Seq<usize>) -> int
    decreases sel.len(),
{
    if sel.len() == 0 {
        0
    } else {
        amount_total(utxos, sel.drop_last()) + utxos[sel.last() as int].amount
    }
}

/// The first `m` confirmed outputs are the fewest, at least one, that reach
/// `required`.
pub open spec fn first_reaching(utxos: Seq<BitcoinUTXO>, c: Seq<usize>, required: int, m: int) -> bool {
    &&& 1 <= m <= c.len()
    &&& amount_total(utxos, c.take(m)) >= required
    &&& forall|k: int| 1 <= k < m ==> amount_total(utxos, #[trigger] c.take(k)) < required
}

/// The outputs `select_utxos` picks for `required`: confirmed outputs in
/// order, up to and including the first whose running total reaches it; all
/// of them (none, when none is confirmed) when that never happens.
pub open spec fn wallet_selection(utxos: Seq<BitcoinUTXO>, c: Seq<usize>, required: int, sel: Seq<usize>) -> bool {
    ||| exists|m: int| first_reaching(utxos, c, required, m) && sel == #[trigger] c.take(m)
    ||| (forall|m: int| 1 <= m <= c.len() ==> !first_reaching(utxos, c, required, m)) && sel == c
}

/// Each running total `select_utxos` forms for `required` fits in a `u64`.
pub open spec fn selection_fits(utxos: Seq<BitcoinUTXO>, c: Seq<usize>, required: int) -> bool {
    forall|m: int|
        1 <= m <= c.len() && (forall|k: int| 1 <= k < m ==> amount_total(utxos, #[trigger] c.take(k)) < required)
            ==> amount_total(utxos, #[trigger] c.take(m)) <= u64::MAX
}

/// Fee of a transaction with the given numbers of inputs and outputs at
/// `fee_rate` per byte.
pub open spec fn spec_wallet_fee(inputs: int, outputs: int, fee_rate: int) -> int {
    (inputs * 148 + outputs * 34 + 10) * fee_rate
}

/// The fee grows in proportion to the fee rate: `k` times the rate costs `k`
/// times the fee, a zero rate costs nothing, and at a rate of one the fee is
/// the estimated size, 148 bytes per input, 34 per output and 10 more.
pub proof fn lemma_fee_scales_with_rate(inputs: int, outputs: int, fee_rate: int, k: int)
    ensures
        spec_wallet_fee(inputs, outputs, k * fee_rate) == k * spec_wallet_fee(inputs, outputs, fee_rate),
        spec_wallet_fee(inputs, outputs, 0) == 0,
        spec_wallet_fee(inputs, outputs, 1) == 148 * inputs + 34 * outputs + 10,
        spec_wallet_fee(inputs + 1, outputs, fee_rate) == spec_wallet_fee(inputs, outputs, fee_rate) + 148 * fee_rate,
        spec_wallet_fee(inputs, outputs + 1, fee_rate) == spec_wallet_fee(inputs, outputs, fee_rate) + 34 * fee_rate,
{
    let size = inputs * 148 + outputs * 34 + 10;
    assert(size * (k * fee_rate) == k * (size * fee_rate)) by (nonlinear_arith);
    assert((size + 148) * fee_rate == size * fee_rate + 148 * fee_rate) by (nonlinear_arith);
    assert((size + 34) * fee_rate == size * fee_rate + 34 * fee_rate) by (nonlinear_arith);
}

/// A Bitcoin wallet: its keys, outputs and balances.
pub struct BitcoinWallet {
    pub wallet_id: [u8; 32],
    pub network: BitcoinNetwork,
    pub pubkey: [u8; 33],
    pub state: BitcoinWalletState,
    pub config: BitcoinWalletConfig,
    pub nullifier_set: Vec<[u8; 32]>,
}

impl BitcoinWallet {
    /// A wallet for a secret key: its id is the SHA-256 of the compressed
    /// public key; it starts with no outputs and nothing locked at the given
    /// block height, with a zero state root. Bytes that are not a valid
    /// secret key are refused.
    pub fn new(
        secret_key: &[u8; 32],
        network: BitcoinNetwork,
        config: BitcoinWalletConfig,
        initial_block_height: u32,
    ) -> (r: Result<Self, WalletError>)
        ensures
            spec_public_key(secret_key@) is None ==> r == Err::<Self, WalletError>(WalletError::InvalidSignature),
            spec_public_key(secret_key@) is Some ==> (r matches Ok(w) && {
                &&& Some(w.pubkey@) == spec_public_key(secret_key@)
                &&& w.wallet_id@ == spec_sha256(w.pubkey@)
                &&& w.network == network
                &&& w.config == config
                &&& w.state.balance == 0
                &&& w.state.nonce == 0
                &&& w.state.locked_balance == 0
                &&& w.state.merkle_root@ == crate::boc::zero_hash()
                &&& w.state.utxo_set@.len() == 0
                &&& w.state.block_height == initial_block_height
                &&& w.nullifier_set@.len() == 0
            }),
    {
        let pubkey = match public_key_of(secret_key) {
            Some(p) => p,
            None => { return Err(WalletError::InvalidSignature); },
        };
        let wallet_id = sha256_digest(pubkey.as_slice());
        let state = BitcoinWalletState {
            balance: 0,
            nonce: 0,
            locked_balance: 0,
            merkle_root: crate::boc::zero_bytes32(),
            last_update: current_timestamp(),
            utxo_set: Vec::new(),
            block_height: initial_block_height,
        };
        Ok(BitcoinWallet { wallet_id, network, pubkey, state, config, nullifier_set: Vec::new() })
    }

    /// Whether a nullifier has been used.
    fn nullifier_used(&self, nullifier: &[u8; 32]) -> (r: bool)
        ensures
            r == self.nullifier_set@.contains(*nullifier),
    {
        crate::wallet_extension::contains_id(&self.nullifier_set, nullifier)
    }

    /// Checks the proof that comes with an output: it must be a state
    /// transition proof whose nullifier is unused.
    fn verify_utxo_proof(&self, utxo: &BitcoinUTXO, proof_bundle: &BitcoinProofBundle) -> (r: Result<(), WalletError>)
        ensures
            r == (if proof_bundle.metadata.proof_type != BitcoinProofType::StateTransition
                || self.nullifier_set@.contains(proof_bundle.proof.nullifier) {
                Err::<(), WalletError>(WalletError::InvalidProof)
            } else {
                Ok::<(), WalletError>(())
            }),
    {
        if proof_bundle.metadata.proof_type != BitcoinProofType::StateTransition {
            return Err(WalletError::InvalidProof);
        }
        if self.nullifier_used(&proof_bundle.proof.nullifier) {
            return Err(WalletError::InvalidProof);
        }
        self.verify_proof(&proof_bundle.proof)
    }

    /// Checks a proof itself; every proof passes until a proof system is
    /// attached.
    fn verify_proof(&self, proof: &BitcoinZkProof) -> (r: Result<(), WalletError>)
        ensures
            r == Ok::<(), WalletError>(()),
    {
        Ok(())
    }

    /// Whether an output equal to `utxo` is held.
    fn holds_utxo(&self, utxo: &BitcoinUTXO) -> (r: bool)
        ensures
            r == utxo_set_view(self.state.utxo_set@).contains(utxo_view(*utxo)),
    {
        let ghost vs = self.state.utxo_set@.map_values(|u: BitcoinUTXO| utxo_view(u));
        let n = self.state.utxo_set.len();
        for i in 0..n
            invariant
                n == self.state.utxo_set@.len(),
                vs == self.state.utxo_set@.map_values(|u: BitcoinUTXO| utxo_view(u)),
                forall|j: int| 0 <= j < i ==> vs[j] != utxo_view(*utxo),
        {
            let u = &self.state.utxo_set[i];
            if crate::btc::bytes32_eq(&u.txid, &utxo.txid) && u.vout == utxo.vout && u.amount == utxo.amount
                && u.confirmation_height == utxo.confirmation_height && bytes_eq(&u.script_pubkey, &utxo.script_pubkey) {
                assert(vs[i as int] == utxo_view(*utxo));
                return true;
            }
        }
        proof {
            if vs.to_set().contains(utxo_view(*utxo)) {
                let k = choose|k: int| 0 <= k < vs.len() && #[trigger] vs[k] == utxo_view(*utxo);
                assert(vs[k] != utxo_view(*utxo));
            }
        }
        false
    }

    /// Takes in an output that comes with a proof: refused, changing nothing,
    /// when the proof is not an unused state transition proof; otherwise the
    /// output joins the set (once) and its amount is added to the balance.
    pub fn process_utxo(&mut self, utxo: BitcoinUTXO, proof_bundle: BitcoinProofBundle) -> (r: Result<(), WalletError>)
        requires
            old(self).state.balance + utxo.amount <= u64::MAX,
        ensures
            final(self).wallet_id == old(self).wallet_id,
            final(self).pubkey == old(self).pubkey,
            final(self).config == old(self).config,
            final(self).nullifier_set == old(self).nullifier_set,
            final(self).state.nonce == old(self).state.nonce,
            final(self).state.locked_balance == old(self).state.locked_balance,
            final(self).state.block_height == old(self).state.block_height,
            proof_bundle.metadata.proof_type != BitcoinProofType::StateTransition || old(self).nullifier_set@.contains(
                proof_bundle.proof.nullifier,
            ) ==> r == Err::<(), WalletError>(WalletError::InvalidProof) && final(self).state.balance == old(self).state.balance && final(self).state.utxo_set == old(self).state.utxo_set,
            proof_bundle.metadata.proof_type == BitcoinProofType::StateTransition && !old(self).nullifier_set@.contains(
                proof_bundle.proof.nullifier,
            ) ==> r == Ok::<(), WalletError>(()) && final(self).state.balance == old(self).state.balance + utxo.amount
                && utxo_set_view(final(self).state.utxo_set@) == utxo_set_view(old(self).state.utxo_set@).insert(
                utxo_view(utxo),
            ),
    {
        self.verify_utxo_proof(&utxo, &proof_bundle)?;
        let amount = utxo.amount;
        if !self.holds_utxo(&utxo) {
            let ghost before = self.state.utxo_set@;
            self.state.utxo_set.push(utxo);
            proof {
                let vb = before.map_values(|u: BitcoinUTXO| utxo_view(u));
                let va = self.state.utxo_set@.map_values(|u: BitcoinUTXO| utxo_view(u));
                assert(va == vb.push(utxo_view(self.state.utxo_set@.last())));
                assert(va.to_set() =~= vb.to_set().insert(utxo_view(self.state.utxo_set@.last()))) by {
                    assert forall|x| va.to_set().contains(x) <==> vb.to_set().insert(
                        utxo_view(self.state.utxo_set@.last()),
                    ).contains(x) by {
                        if va.to_set().contains(x) {
                            let k = choose|k: int| 0 <= k < va.len() && #[trigger] va[k] == x;
                            if k < vb.len() {
                                assert(vb[k] == x);
                            }
                        }
                        if vb.to_set().contains(x) {
                            let k = choose|k: int| 0 <= k < vb.len() && #[trigger] vb[k] == x;
                            assert(va[k] == x);
                        }
                        if x == utxo_view(self.state.utxo_set@.last()) {
                            assert(va[vb.len() as int] == x);
                        }
                    }
                }
            }
        } else {
            assert(utxo_set_view(self.state.utxo_set@).insert(utxo_view(utxo)) =~= utxo_set_view(self.state.utxo_set@));
        }
        self.state.balance = self.state.balance + amount;
        Ok(())
    }

    /// The fee of a transaction with the given numbers of inputs and outputs
    /// at the wallet's fee rate.
    pub fn calculate_transaction_fee(&self, inputs: u32, outputs: u32) -> (r: u64)
        requires
            inputs * 148 + outputs * 34 + 10 <= u32::MAX,
            spec_wallet_fee(inputs as int, outputs as int, self.config.fee_rate as int) <= u64::MAX,
        ensures
            r == spec_wallet_fee(inputs as int, outputs as int, self.config.fee_rate as int),
            r == (148 * inputs + 34 * outputs + 10) * self.config.fee_rate,
    {
        let tx_size = (inputs * 148 + outputs * 34 + 10) as u64;
        tx_size * self.config.fee_rate
    }

    /// Picks confirmed outputs, in order, until their total reaches
    /// `required_amount`; refused when all confirmed outputs together fall
    /// short. Returns the positions picked.
    pub fn select_utxos(&self, required_amount: u64) -> (r: Result<Vec<usize>, WalletError>)
        requires
            selection_fits(
                self.state.utxo_set@,
                confirmed_positions(self.state.utxo_set@, self.config.min_confirmation, self.state.block_height),
                required_amount as int,
            ),
        ensures
            ({
                let c = confirmed_positions(self.state.utxo_set@, self.config.min_confirmation, self.state.block_height);
                exists|sel: Seq<usize>|
                    #![trigger amount_total(self.state.utxo_set@, sel)]
                    wallet_selection(self.state.utxo_set@, c, required_amount as int, sel) && if amount_total(
                        self.state.utxo_set@,
                        sel,
                    ) < required_amount {
                        r == Err::<Vec<usize>, WalletError>(WalletError::InsufficientFunds)
                    } else {
                        r matches Ok(v) && v@ == sel
                    }
            }),
    {
        let ghost utxos = self.state.utxo_set@;
        let ghost c = confirmed_positions(utxos, self.config.min_confirmation, self.state.block_height);
        let mut selected: Vec<usize> = Vec::new();
        let mut total: u64 = 0;
        let n = self.state.utxo_set.len();
        let mut i: usize = 0;
        let mut reached = false;
        while i < n
            invariant_except_break
                !reached,
                selected@.len() == 0 || total < required_amount,
                selected@ == confirmed_positions(utxos.take(i as int), self.config.min_confirmation, self.state.block_height),
            invariant
                n == utxos.len(),
                utxos == self.state.utxo_set@,
                c == confirmed_positions(utxos, self.config.min_confirmation, self.state.block_height),
                i <= n,
                selection_fits(utxos, c, required_amount as int),
                selected@ == c.take(selected@.len() as int),
                selected@.len() <= c.len(),
                total == amount_total(utxos, selected@),
                forall|k: int| 1 <= k < selected@.len() ==> amount_total(utxos, #[trigger] c.take(k)) < required_amount,
                reached ==> selected@.len() >= 1 && total >= required_amount,
            ensures
                reached ==> first_reaching(utxos, c, required_amount as int, selected@.len() as int),
                !reached ==> i == n && (selected@.len() == 0 || total < required_amount) && selected@ == confirmed_positions(
                    utxos.take(i as int),
                    self.config.min_confirmation,
                    self.state.block_height,
                ),
            decreases n - i,
        {
            proof { lemma_confirmed_positions_prefix(utxos, self.config.min_confirmation, self.state.block_height, i as int); }
            let u = &self.state.utxo_set[i];
            if (u.confirmation_height as u64) + (self.config.min_confirmation as u64) <= self.state.block_height as u64 {
                let ghost before = selected@;
                selected.push(i);
                proof {
                    assert(selected@ =~= c.take(selected@.len() as int));
                    lemma_amount_total_push(utxos, before, i);
                    assert(selected@.drop_last() == before);
                    assert(amount_total(utxos, c.take(selected@.len() as int)) <= u64::MAX);
                }
                total = total + u.amount;
                if total >= required_amount {
                    reached = true;
                    break;
                }
            }
            i = i + 1;
        }
        proof {
            if !reached {
                assert(utxos.take(n as int) == utxos);
                assert(selected@ == c);
            }
        }
        if !reached && total < required_amount {
            proof {
                assert forall|m: int| 1 <= m <= c.len() implies !first_reaching(utxos, c, required_amount as int, m) by {
                    if m < c.len() {
                        assert(amount_total(utxos, c.take(m)) < required_amount);
                    } else {
                        assert(c.take(m) == c);
                    }
                }
            }
            return Err(WalletError::InsufficientFunds);
        }
        proof {
            if !reached {
                assert forall|m: int| 1 <= m <= c.len() implies !first_reaching(utxos, c, required_amount as int, m) by {
                }
            }
        }
        Ok(selected)
    }
}

/// `tx` pays `amount` to `recipient` and the rest of the picked outputs,
/// after `fee`, back to `own_key`, spending the picked outputs in order.
pub open spec fn payment_tx_shape(
    tx: Tx,
    utxos: Seq<BitcoinUTXO>,
    sel: Seq<usize>,
    amount: u64,
    fee: u64,
    recipient: [u8; 33],
    own_key: [u8; 33],
) -> bool {
    &&& tx.version == 2
    &&& tx.lock_time == 0
    &&& tx.input@.len() == sel.len()
    &&& forall|k: int|
        0 <= k < sel.len() ==> {
            &&& (#[trigger] tx.input@[k]).previous_output == (OutPoint {
                txid: utxos[sel[k] as int].txid,
                vout: utxos[sel[k] as int].vout,
            })
            &&& tx.input@[k].script_sig@.len() == 0
            &&& tx.input@[k].sequence == FINAL_SEQUENCE
        }
    &&& tx.output@.len() == 2
    &&& tx.output@[0].value == amount
    &&& tx.output@[0].script_pubkey@ == spec_p2pkh_for_key(recipient@)
    &&& tx.output@[1].value == amount_total(utxos, sel) - amount - fee
    &&& tx.output@[1].script_pubkey@ == spec_p2pkh_for_key(own_key@)
}

impl BitcoinWallet {
    /// The confirmed outputs, in order, for the wallet's chain position.
    pub closed spec fn confirmed(&self) -> Seq<usize> {
        confirmed_positions(self.state.utxo_set@, self.config.min_confirmation, self.state.block_height)
    }

    /// A payment of `amount` to `recipient` with `fee`: refused when the
    /// balance cannot cover both; otherwise picks confirmed outputs as
    /// `select_utxos` does (refused when they fall short) and pays the change
    /// back to the wallet's key.
    #[verifier::spinoff_prover]
    #[verifier::rlimit(40)]
    pub fn create_transaction(&self, recipient: &[u8; 33], amount: u64, fee: u64) -> (r: Result<Tx, WalletError>)
        requires
            amount + fee <= self.state.balance ==> selection_fits(
                self.state.utxo_set@,
                self.confirmed(),
                amount + fee,
            ),
        ensures
            amount + fee > self.state.balance ==> (r matches Err(e) && e == WalletError::InsufficientFunds),
            amount + fee <= self.state.balance ==> exists|sel: Seq<usize>|
                #![trigger amount_total(self.state.utxo_set@, sel)]
                wallet_selection(self.state.utxo_set@, self.confirmed(), amount + fee, sel) && if amount_total(
                    self.state.utxo_set@,
                    sel,
                ) < amount + fee {
                    r matches Err(e) && e == WalletError::InsufficientFunds
                } else {
                    r matches Ok(tx) && payment_tx_shape(tx, self.state.utxo_set@, sel, amount, fee, *recipient, self.pubkey)
                },
    {
        if amount as u128 + fee as u128 > self.state.balance as u128 {
            return Err(WalletError::InsufficientFunds);
        }
        let required = amount + fee;
        let selected = match self.select_utxos(required) {
            Ok(v) => v,
            Err(e) => { return Err(e); },
        };
        let ghost utxos = self.state.utxo_set@;
        let mut total_input: u64 = 0;
        let mut inputs: Vec<TxInput> = Vec::new();
        let n = selected.len();
        proof {
            let sel = selected@;
            assert(wallet_selection(utxos, self.confirmed(), required as int, sel));
            lemma_confirmed_positions_bounded(utxos, self.config.min_confirmation, self.state.block_height);
            lemma_selection_total_fits(utxos, self.confirmed(), required as int, sel);
        }
        for k in 0..n
            invariant
                n == selected@.len(),
                utxos == self.state.utxo_set@,
                amount_total(utxos, selected@) <= u64::MAX,
                total_input == amount_total(utxos, selected@.take(k as int)),
                forall|j: int| 0 <= j < selected@.len() ==> (#[trigger] selected@[j]) < utxos.len(),
                inputs@.len() == k,
                forall|j: int|
                    0 <= j < k ==> {
                        &&& (#[trigger] inputs@[j]).previous_output == (OutPoint {
                            txid: utxos[selected@[j] as int].txid,
                            vout: utxos[selected@[j] as int].vout,
                        })
                        &&& inputs@[j].script_sig@.len() == 0
                        &&& inputs@[j].sequence == FINAL_SEQUENCE
                    },
        {
            let idx = selected[k];
            let u = &self.state.utxo_set[idx];
            proof {
                assert(selected@.take(k + 1).drop_last() == selected@.take(k as int));
                lemma_amount_total_prefix(utxos, selected@, k as int + 1);
            }
            total_input = total_input + u.amount;
            inputs.push(unsigned_input(OutPoint { txid: u.txid, vout: u.vout }));
        }
        assert(selected@.take(n as int) == selected@);
        let mut outputs: Vec<TxOutput> = Vec::new();
        outputs.push(TxOutput { value: amount, script_pubkey: p2pkh_for_key(recipient) });
        outputs.push(TxOutput { value: total_input - amount - fee, script_pubkey: p2pkh_for_key(&self.pubkey) });
        Ok(Tx { version: 2, lock_time: 0, input: inputs, output: outputs })
    }
}

/// A running total of a selection is at most the whole total.
pub proof fn lemma_amount_total_prefix(utxos: Seq<BitcoinUTXO>, sel: Seq<usize>, k: int)
    requires
        0 <= k <= sel.len(),
    ensures
        amount_total(utxos, sel.take(k)) <= amount_total(utxos, sel),
    decreases sel.len() - k,
{
    if k < sel.len() {
        assert(sel.take(k + 1).drop_last() == sel.take(k));
        lemma_amount_total_prefix(utxos, sel, k + 1);
    } else {
        assert(sel.take(k) == sel);
    }
}

/// What `select_utxos` picks has a total that fits in a `u64`, and its
/// positions are positions of confirmed outputs.
pub proof fn lemma_selection_total_fits(utxos: Seq<BitcoinUTXO>, c: Seq<usize>, required: int, sel: Seq<usize>)
    requires
        selection_fits(utxos, c, required),
        wallet_selection(utxos, c, required, sel),
        forall|j: int| 0 <= j < c.len() ==> (#[trigger] c[j]) < utxos.len(),
    ensures
        amount_total(utxos, sel) <= u64::MAX || (amount_total(utxos, sel) < required && required <= u64::MAX),
        forall|j: int| 0 <= j < sel.len() ==> (#[trigger] sel[j]) < utxos.len(),
{
    if exists|m: int| first_reaching(utxos, c, required, m) && sel == #[trigger] c.take(m) {
        let m = choose|m: int| first_reaching(utxos, c, required, m) && sel == #[trigger] c.take(m);
        assert(amount_total(utxos, c.take(m)) <= u64::MAX);
        assert forall|j: int| 0 <= j < sel.len() implies (#[trigger] sel[j]) < utxos.len() by {
            assert(sel[j] == c[j]);
        }
    } else {
        assert(sel == c);
        assert forall|m: int| 1 <= m <= c.len() implies amount_total(utxos, #[trigger] c.take(m)) < required by {
            if amount_total(utxos, c.take(m)) >= required {
                lemma_first_reaching_exists(utxos, c, required, m);
            }
        }
        if c.len() > 0 {
            assert(c.take(c.len() as int) == c);
        }
    }
}

/// When some prefix reaches `required`, a shortest one does.
pub proof fn lemma_first_reaching_exists(utxos: Seq<BitcoinUTXO>, c: Seq<usize>, required: int, m: int)
    requires
        1 <= m <= c.len(),
        amount_total(utxos, c.take(m)) >= required,
    ensures
        exists|k: int| first_reaching(utxos, c, required, k),
    decreases m,
{
    if forall|k: int| 1 <= k < m ==> amount_total(utxos, #[trigger] c.take(k)) < required {
        assert(first_reaching(utxos, c, required, m));
    } else {
        let k = choose|k: int| 1 <= k < m && amount_total(utxos, #[trigger] c.take(k)) >= required;
        lemma_first_reaching_exists(utxos, c, required, k);
    }
}

/// Every confirmed position is a position of the list.
pub proof fn lemma_confirmed_positions_bounded(utxos: Seq<BitcoinUTXO>, min_confirmation: u32, height: u32)
    ensures
        forall|j: int|
            0 <= j < confirmed_positions(utxos, min_confirmation, height).len() ==> (#[trigger] confirmed_positions(
                utxos,
                min_confirmation,
                height,
            )[j]) < utxos.len(),
    decreases utxos.len(),
{
    if utxos.len() > 0 {
        lemma_confirmed_positions_bounded(utxos.drop_last(), min_confirmation, height);
        let rest = confirmed_positions(utxos.drop_last(), min_confirmation, height);
        let all = confirmed_positions(utxos, min_confirmation, height);
        assert forall|j: int| 0 <= j < all.len() implies (#[trigger] all[j]) < utxos.len() by {
            if j < rest.len() {
                assert(all[j] == rest[j]);
            }
        }
    }
}

/// Compares two byte vectors.
pub fn bytes_eq(a: &Vec<u8>, b: &Vec<u8>) -> (r: bool)
    ensures
        r == (a@ == b@),
{
    if a.len() != b.len() {
        return false;
    }
    let n = a.len();
    for i in 0..n
        invariant
            n == a@.len(),
            n == b@.len(),
            forall|j: int| 0 <= j < i ==> a@[j] == b@[j],
    {
        if a[i] != b[i] {
            return false;
        }
    }
    assert(a@ =~= b@);
    true
}

/// Adding one more position adds its amount to the total.
pub proof fn lemma_amount_total_push(utxos: Seq<BitcoinUTXO>, sel: Seq<usize>, b: usize)
    ensures
        amount_total(utxos, sel.push(b)) == amount_total(utxos, sel) + utxos[b as int].amount,
{
    assert(sel.push(b).drop_last() == sel);
}

/// The confirmed positions of a prefix, and one more step of it.
pub proof fn lemma_confirmed_positions_prefix(utxos: Seq<BitcoinUTXO>, min_confirmation: u32, height: u32, i: int)
    requires
        0 <= i < utxos.len(),
    ensures
        confirmed_positions(utxos.take(i + 1), min_confirmation, height) == if is_confirmed(
            utxos[i],
            min_confirmation,
            height,
        ) {
            confirmed_positions(utxos.take(i), min_confirmation, height).push(i as usize)
        } else {
            confirmed_positions(utxos.take(i), min_confirmation, height)
        },
        confirmed_positions(utxos.take(i), min_confirmation, height).is_prefix_of(
            confirmed_positions(utxos, min_confirmation, height),
        ),
        confirmed_positions(utxos.take(i + 1), min_confirmation, height).is_prefix_of(
            confirmed_positions(utxos, min_confirmation, height),
        ),
{
    assert(utxos.take(i + 1).drop_last() == utxos.take(i));
    lemma_confirmed_positions_grow(utxos, min_confirmation, height, i);
    lemma_confirmed_positions_grow(utxos, min_confirmation, height, i + 1);
}

/// The confirmed positions of a prefix are a prefix of those of the whole.
pub proof fn lemma_confirmed_positions_grow(utxos: Seq<BitcoinUTXO>, min_confirmation: u32, height: u32, i: int)
    requires
        0 <= i <= utxos.len(),
    ensures
        confirmed_positions(utxos.take(i), min_confirmation, height).is_prefix_of(
            confirmed_positions(utxos, min_confirmation, height),
        ),
    decreases utxos.len() - i,
{
    if i < utxos.len() {
        lemma_confirmed_positions_grow(utxos, min_confirmation, height, i + 1);
        assert(utxos.take(i + 1).drop_last() == utxos.take(i));
    } else {
        assert(utxos.take(i) == utxos);
    }
}

} // verus!
