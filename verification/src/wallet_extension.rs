use vstd::prelude::*;

use crate::bitcoin_types::BitcoinNetwork;
use crate::btc::{spec_txid, txid_of, ConvertedTransaction, OutPoint, Tx, TxInput, TxOutput, FINAL_SEQUENCE};

verus! {

/// Where a wallet's Bitcoin transaction stands.
#[derive(Clone, Copy, Debug, PartialEq, Eq, Structural)]
pub enum BitcoinTxStatus {
    Pending,
    /// Confirmed at the given block height.
    Confirmed(u32),
    Failed,
}

/// Bitcoin-specific limits of a payment channel.
#[derive(Clone, Copy, Debug)]
pub struct BitcoinChannelConfig {
    pub dust_limit_satoshis: u64,
    pub max_accepted_htlcs: u16,
    pub channel_reserve_satoshis: u64,
    pub htlc_minimum_msat: u64,
    pub max_htlc_value_in_flight_msat: u64,
    pub min_depth: u32,
    pub to_self_delay: u16,
    pub max_accepted_channel_reserve_satoshis: u64,
}

/// The limits a channel gets unless told otherwise.
pub open spec fn default_channel_config() -> BitcoinChannelConfig {
    BitcoinChannelConfig {
        dust_limit_satoshis: 546,
        max_accepted_htlcs: 483,
        channel_reserve_satoshis: 10000,
        htlc_minimum_msat: 1000,
        max_htlc_value_in_flight_msat: 1000000000,
        min_depth: 3,
        to_self_delay: 144,
        max_accepted_channel_reserve_satoshis: 1000000,
    }
}

impl Default for BitcoinChannelConfig {
    fn default() -> (r: Self)
        ensures
            r == default_channel_config(),
    {
        BitcoinChannelConfig {
            dust_limit_satoshis: 546,
            max_accepted_htlcs: 483,
            channel_reserve_satoshis: 10000,
            htlc_minimum_msat: 1000,
            max_htlc_value_in_flight_msat: 1000000000,
            min_depth: 3,
            to_self_delay: 144,
            max_accepted_channel_reserve_satoshis: 1000000,
        }
    }
}

/// An output the wallet knows, with the height it was seen at and whether it
/// has been spent.
#[derive(Clone, Debug)]
pub struct BitcoinUtxo {
    pub outpoint: OutPoint,
    pub txout: TxOutput,
    pub height: u32,
    pub is_spent: bool,
}

/// The life cycle of an HTLC held by the wallet.
#[derive(Clone, Copy, Debug, PartialEq, Eq, Structural)]
pub enum HtlcStatus {
    Pending,
    Succeeded,
    Failed,
    Timeout,
}

/// An HTLC held by the wallet.
#[derive(Clone, Copy, Debug)]
pub struct HtlcState {
    pub amount: u64,
    pub hash: [u8; 32],
    pub expiry: u32,
    pub status: HtlcStatus,
}

/// The private state of a channel as the wallet sees it.
#[derive(Clone, Copy, Debug)]
pub struct PrivateChannelState {
    pub balance: u64,
    pub nonce: u64,
    pub sequence_number: u64,
    pub merkle_root: [u8; 32],
}

/// A new wallet state to adopt.
#[derive(Clone, Copy, Debug)]
pub struct WalletStateUpdate {
    pub new_balance: u64,
    pub new_nonce: u64,
    pub merkle_root: [u8; 32],
}

/// A channel the wallet takes part in: its capacity, its latest sequence
/// number, its private state and the block height at which it times out.
#[derive(Clone, Copy, Debug)]
pub struct WalletChannel {
    pub channel_id: [u8; 32],
    pub balance: u64,
    pub seqno: u64,
    pub state: PrivateChannelState,
    pub timeout: Option<u32>,
}

/// Why a wallet operation was refused.
#[derive(Clone, Copy, Debug, PartialEq, Eq, Structural)]
pub enum WalletExtensionError {
    ChannelNotFound,
    BelowReserve,
    InsufficientFunds,
    UtxoValueOverflow,
    FeeCalculationOverflow,
    BalanceOverflow,
    LockedBalanceOverflow,
    InvalidFinalState,
    NoRelevantOutput,
    TooManyHtlcs,
    HtlcValueTooHigh,
    HtlcBelowMinimum,
}

/// The total value of the unspent outputs of a list.
pub open spec fn unspent_total(utxos: Seq<BitcoinUtxo>) -> int
    decreases utxos.len(),
{
    if utxos.len() == 0 {
        0
    } else {
        unspent_total(utxos.drop_last()) + if utxos.last().is_spent {
            0
        } else {
            utxos.last().txout.value as int
        }
    }
}

/// The total capacity of a list of channels.
pub open spec fn channels_total(channels: Seq<WalletChannel>) -> int
    decreases channels.len(),
{
    if channels.len() == 0 {
        0
    } else {
        channels_total(channels.drop_last()) + channels.last().balance
    }
}

/// The Bitcoin side of a wallet: its outputs, channels and transactions.
pub struct BitcoinWalletExtension {
    pub wallet_id: [u8; 32],
    pub network: BitcoinNetwork,
    pub channels: Vec<WalletChannel>,
    pub utxos: Vec<BitcoinUtxo>,
    pub total_balance: u64,
    pub total_locked_balance: u64,
    pub state: PrivateChannelState,
    pub bitcoin_config: BitcoinChannelConfig,
    pub transactions: Vec<([u8; 32], Tx, BitcoinTxStatus)>,
    pub change_script: Vec<u8>,
}

impl BitcoinWalletExtension {
    /// An empty wallet with the default channel limits and an empty change
    /// script.
    pub fn new(wallet_id: [u8; 32], network: BitcoinNetwork) -> (r: Self)
        ensures
            r.wallet_id == wallet_id,
            r.network == network,
            r.channels@.len() == 0,
            r.utxos@.len() == 0,
            r.total_balance == 0,
            r.total_locked_balance == 0,
            r.state.balance == 0,
            r.state.nonce == 0,
            r.state.sequence_number == 0,
            r.state.merkle_root@ == crate::boc::zero_hash(),
            r.bitcoin_config == default_channel_config(),
            r.transactions@.len() == 0,
            r.change_script@.len() == 0,
    {
        BitcoinWalletExtension {
            wallet_id,
            network,
            channels: Vec::new(),
            utxos: Vec::new(),
            total_balance: 0,
            total_locked_balance: 0,
            state: PrivateChannelState {
                balance: 0,
                nonce: 0,
                sequence_number: 0,
                merkle_root: crate::boc::zero_bytes32(),
            },
            bitcoin_config: BitcoinChannelConfig::default(),
            transactions: Vec::new(),
            change_script: Vec::new(),
        }
    }

    /// Recomputes the available balance (the unspent outputs) and the locked
    /// balance (the channels' capacities); refused, leaving both as they were,
    /// when either total does not fit in a `u64`.
    pub fn recalculate_balances(&mut self) -> (r: Result<(), WalletExtensionError>)
        ensures
            final(self).wallet_id == old(self).wallet_id,
            final(self).network == old(self).network,
            final(self).channels == old(self).channels,
            final(self).utxos == old(self).utxos,
            final(self).state == old(self).state,
            final(self).bitcoin_config == old(self).bitcoin_config,
            final(self).transactions == old(self).transactions,
            final(self).change_script == old(self).change_script,
            unspent_total(old(self).utxos@) > u64::MAX ==> r == Err::<(), WalletExtensionError>(
                WalletExtensionError::BalanceOverflow,
            ) && final(self).total_balance == old(self).total_balance
                && final(self).total_locked_balance == old(self).total_locked_balance,
            unspent_total(old(self).utxos@) <= u64::MAX && channels_total(old(self).channels@) > u64::MAX ==> r
                == Err::<(), WalletExtensionError>(WalletExtensionError::LockedBalanceOverflow)
                && final(self).total_balance == old(self).total_balance
                && final(self).total_locked_balance == old(self).total_locked_balance,
            unspent_total(old(self).utxos@) <= u64::MAX && channels_total(old(self).channels@) <= u64::MAX ==> r
                == Ok::<(), WalletExtensionError>(()) && final(self).total_balance == unspent_total(old(self).utxos@)
                && final(self).total_locked_balance == channels_total(old(self).channels@),
    {
        let mut available: u64 = 0;
        let n = self.utxos.len();
        for i in 0..n
            invariant
                n == self.utxos@.len(),
                available == unspent_total(self.utxos@.take(i as int)),
        {
            assert(self.utxos@.take(i + 1).drop_last() == self.utxos@.take(i as int));
            if !self.utxos[i].is_spent {
                match available.checked_add(self.utxos[i].txout.value) {
                    Some(t) => { available = t; },
                    None => {
                        proof { lemma_unspent_total_prefix(self.utxos@, i as int + 1); }
                        return Err(WalletExtensionError::BalanceOverflow);
                    },
                }
            }
        }
        assert(self.utxos@.take(n as int) == self.utxos@);
        let mut locked: u64 = 0;
        let m = self.channels.len();
        for i in 0..m
            invariant
                m == self.channels@.len(),
                locked == channels_total(self.channels@.take(i as int)),
                available == unspent_total(self.utxos@),
        {
            assert(self.channels@.take(i + 1).drop_last() == self.channels@.take(i as int));
            match locked.checked_add(self.channels[i].balance) {
                Some(t) => { locked = t; },
                None => {
                    proof { lemma_channels_total_prefix(self.channels@, i as int + 1); }
                    return Err(WalletExtensionError::LockedBalanceOverflow);
                },
            }
        }
        assert(self.channels@.take(m as int) == self.channels@);
        self.total_balance = available;
        self.total_locked_balance = locked;
        Ok(())
    }

    /// Adopts a new balance, nonce and Merkle root, then recomputes the
    /// totals as `recalculate_balances` does.
    pub fn update_state(&mut self, update: WalletStateUpdate) -> (r: Result<(), WalletExtensionError>)
        ensures
            final(self).state.balance == update.new_balance,
            final(self).state.nonce == update.new_nonce,
            final(self).state.merkle_root == update.merkle_root,
            final(self).state.sequence_number == old(self).state.sequence_number,
            final(self).channels == old(self).channels,
            final(self).utxos == old(self).utxos,
            final(self).transactions == old(self).transactions,
            unspent_total(old(self).utxos@) > u64::MAX ==> r == Err::<(), WalletExtensionError>(
                WalletExtensionError::BalanceOverflow,
            ),
            unspent_total(old(self).utxos@) <= u64::MAX && channels_total(old(self).channels@) > u64::MAX ==> r
                == Err::<(), WalletExtensionError>(WalletExtensionError::LockedBalanceOverflow),
            unspent_total(old(self).utxos@) <= u64::MAX && channels_total(old(self).channels@) <= u64::MAX ==> r
                == Ok::<(), WalletExtensionError>(()) && final(self).total_balance == unspent_total(old(self).utxos@)
                && final(self).total_locked_balance == channels_total(old(self).channels@),
    {
        self.state.balance = update.new_balance;
        self.state.nonce = update.new_nonce;
        self.state.merkle_root = update.merkle_root;
        self.recalculate_balances()
    }

    /// Checks a channel state transition once its proof has been checked
    /// (`proof_valid`): the balance may grow by at most the in-flight limit
    /// and the sequence number must advance by exactly one.
    pub fn verify_state_transition(
        &self,
        old_state: &PrivateChannelState,
        new_state: &PrivateChannelState,
        proof_valid: bool,
    ) -> (r: bool)
        ensures
            r == (proof_valid && new_state.balance <= old_state.balance + self.bitcoin_config.max_htlc_value_in_flight_msat
                && new_state.sequence_number == old_state.sequence_number + 1),
    {
        if !proof_valid {
            return false;
        }
        if new_state.balance as u128 > old_state.balance as u128 + self.bitcoin_config.max_htlc_value_in_flight_msat as u128 {
            return false;
        }
        if new_state.sequence_number as u128 != old_state.sequence_number as u128 + 1 {
            return false;
        }
        true
    }
}

/// The total value of the outputs at the given positions.
pub open spec fn picked_total(utxos: Seq<BitcoinUtxo>, sel: Seq<usize>) -> int
    decreases sel.len(),
{
    if sel.len() == 0 {
        0
    } else {
        picked_total(utxos, sel.drop_last()) + utxos[sel.last() as int].txout.value
    }
}

/// `sel` picks unspent outputs of `utxos` largest first, each at most once,
/// while the running total is still below `amount`: every output picked is
/// worth at least every unspent output left.
pub open spec fn greedy_pick(utxos: Seq<BitcoinUtxo>, sel: Seq<usize>, amount: u64) -> bool {
    &&& forall|k: int| 0 <= k < sel.len() ==> (#[trigger] sel[k]) < utxos.len() && !utxos[sel[k] as int].is_spent
    &&& forall|a: int, b: int| 0 <= a < b < sel.len() ==> #[trigger] sel[a] != #[trigger] sel[b]
    &&& forall|a: int, b: int|
        0 <= a < b < sel.len() ==> utxos[(#[trigger] sel[a]) as int].txout.value >= utxos[(#[trigger] sel[b]) as int].txout.value
    &&& forall|k: int, i: int|
        0 <= k < sel.len() && 0 <= i < utxos.len() && !(#[trigger] utxos[i]).is_spent && !sel.contains(i as usize)
            ==> utxos[i].txout.value <= utxos[(#[trigger] sel[k]) as int].txout.value
    &&& forall|k: int| 0 <= k < sel.len() ==> picked_total(utxos, #[trigger] sel.take(k)) < amount
}

/// Every unspent output is picked.
pub open spec fn covers_unspent(utxos: Seq<BitcoinUtxo>, sel: Seq<usize>) -> bool {
    forall|i: int| 0 <= i < utxos.len() && !(#[trigger] utxos[i]).is_spent ==> sel.contains(i as usize)
}

/// What selecting outputs worth `amount` (plus the fee of a transaction with
/// two outputs at one satoshi per byte) gives: the picks and the change, or
/// why it failed, with the greedy pick that shows it.
pub open spec fn selection_outcome(
    utxos: Seq<BitcoinUtxo>,
    amount: u64,
    r: Result<(Seq<usize>, u64), WalletExtensionError>,
) -> bool {
    match r {
        Ok((sel, change)) => {
            &&& greedy_pick(utxos, sel, amount)
            &&& amount <= picked_total(utxos, sel) <= u64::MAX
            &&& change == picked_total(utxos, sel) - amount - spec_tx_fee(sel.len() as int, 2, 1)
        },
        Err(WalletExtensionError::UtxoValueOverflow) => exists|sel: Seq<usize>|
            greedy_pick(utxos, sel, amount) && #[trigger] picked_total(utxos, sel) > u64::MAX,
        Err(WalletExtensionError::InsufficientFunds) => exists|sel: Seq<usize>|
            greedy_pick(utxos, sel, amount) && covers_unspent(utxos, sel) && #[trigger] picked_total(utxos, sel) < amount,
        Err(WalletExtensionError::FeeCalculationOverflow) => exists|sel: Seq<usize>|
            greedy_pick(utxos, sel, amount) && amount <= #[trigger] picked_total(utxos, sel) <= u64::MAX
                && picked_total(utxos, sel) - amount < spec_tx_fee(sel.len() as int, 2, 1),
        Err(_) => false,
    }
}

/// How many entries are still false.
pub open spec fn count_false(flags: Seq<bool>) -> nat
    decreases flags.len(),
{
    if flags.len() == 0 {
        0
    } else {
        count_false(flags.drop_last()) + if flags.last() {
            0nat
        } else {
            1nat
        }
    }
}

/// Setting a false entry to true lowers the count by one.
pub proof fn lemma_count_false_set(flags: Seq<bool>, i: int)
    requires
        0 <= i < flags.len(),
        !flags[i],
    ensures
        count_false(flags.update(i, true)) + 1 == count_false(flags),
    decreases flags.len(),
{
    let u = flags.update(i, true);
    if i == flags.len() - 1 {
        assert(u.drop_last() == flags.drop_last());
    } else {
        assert(u.drop_last() == flags.drop_last().update(i, true));
        lemma_count_false_set(flags.drop_last(), i);
    }
}

/// Adding one more pick adds its value to the total.
pub proof fn lemma_picked_total_push(utxos: Seq<BitcoinUtxo>, sel: Seq<usize>, b: usize)
    ensures
        picked_total(utxos, sel.push(b)) == picked_total(utxos, sel) + utxos[b as int].txout.value,
{
    assert(sel.push(b).drop_last() == sel);
}

impl BitcoinWalletExtension {
    /// The position of the most valuable unspent output not yet taken, the
    /// first such one; `None` when every unspent output is taken.
    fn best_untaken(&self, taken: &Vec<bool>) -> (r: Option<usize>)
        requires
            taken@.len() == self.utxos@.len(),
        ensures
            r is None ==> forall|i: int| 0 <= i < self.utxos@.len() ==> (#[trigger] self.utxos@[i]).is_spent || taken@[i],
            r matches Some(b) ==> {
                &&& b < self.utxos@.len()
                &&& !self.utxos@[b as int].is_spent
                &&& !taken@[b as int]
                &&& forall|i: int|
                    0 <= i < self.utxos@.len() && !(#[trigger] self.utxos@[i]).is_spent && !taken@[i]
                        ==> self.utxos@[i].txout.value <= self.utxos@[b as int].txout.value
            },
    {
        let mut best: Option<usize> = None;
        let n = self.utxos.len();
        for i in 0..n
            invariant
                n == self.utxos@.len(),
                taken@.len() == n,
                best is None ==> forall|j: int| 0 <= j < i ==> (#[trigger] self.utxos@[j]).is_spent || taken@[j],
                best matches Some(b) ==> {
                    &&& b < i
                    &&& !self.utxos@[b as int].is_spent
                    &&& !taken@[b as int]
                    &&& forall|j: int|
                        0 <= j < i && !(#[trigger] self.utxos@[j]).is_spent && !taken@[j]
                            ==> self.utxos@[j].txout.value <= self.utxos@[b as int].txout.value
                },
        {
            if !self.utxos[i].is_spent && !taken[i] {
                match best {
                    None => { best = Some(i); },
                    Some(b) => {
                        if self.utxos[i].txout.value > self.utxos[b].txout.value {
                            best = Some(i);
                        }
                    },
                }
            }
        }
        best
    }

    /// Picks unspent outputs largest first until their total reaches
    /// `amount` or none is left.
    fn greedy_select(&self, amount: u64) -> (r: (Vec<usize>, u128))
        ensures
            greedy_pick(self.utxos@, r.0@, amount),
            r.1 == picked_total(self.utxos@, r.0@),
            r.1 >= amount || covers_unspent(self.utxos@, r.0@),
    {
        let n = self.utxos.len();
        let mut taken: Vec<bool> = Vec::new();
        for i in 0..n
            invariant
                taken@.len() == i,
                forall|j: int| 0 <= j < i ==> !(#[trigger] taken@[j]),
        {
            taken.push(false);
        }
        let mut sel: Vec<usize> = Vec::new();
        let mut total: u128 = 0;
        while total < amount as u128
            invariant
                n == self.utxos@.len(),
                taken@.len() == n,
                forall|i: int| 0 <= i < n ==> (#[trigger] taken@[i] <==> sel@.contains(i as usize)),
                greedy_pick(self.utxos@, sel@, amount),
                total == picked_total(self.utxos@, sel@),
            ensures
                total >= amount || covers_unspent(self.utxos@, sel@),
            decreases count_false(taken@),
        {
            let best = self.best_untaken(&taken);
            let b = match best {
                None => {
                    assert(covers_unspent(self.utxos@, sel@));
                    break;
                },
                Some(b) => b,
            };
            let ghost old_sel = sel@;
            proof { lemma_count_false_set(taken@, b as int); }
            taken.set(b, true);
            sel.push(b);
            proof {
                lemma_picked_total_push(self.utxos@, old_sel, b);
                assert(sel@.drop_last() == old_sel);
                assert forall|i: int| 0 <= i < n implies (#[trigger] taken@[i] <==> sel@.contains(i as usize)) by {
                    if i == b as int {
                        assert(sel@[old_sel.len() as int] == b);
                    } else {
                        if old_sel.contains(i as usize) {
                            let k = choose|k: int| 0 <= k < old_sel.len() && old_sel[k] == i as usize;
                            assert(sel@[k] == i as usize);
                        }
                        if sel@.contains(i as usize) {
                            let k = choose|k: int| 0 <= k < sel@.len() && sel@[k] == i as usize;
                            assert(old_sel[k] == i as usize);
                        }
                    }
                }
                assert forall|k: int| 0 <= k < sel@.len() implies picked_total(self.utxos@, #[trigger] sel@.take(k)) < amount by {
                    if k < old_sel.len() {
                        assert(sel@.take(k) == old_sel.take(k));
                    } else {
                        assert(sel@.take(k) == old_sel);
                    }
                }
                assert forall|a: int, c: int| 0 <= a < c < sel@.len() implies #[trigger] sel@[a] != #[trigger] sel@[c] by {
                    if c == old_sel.len() {
                        assert(old_sel.contains(sel@[a]));
                    }
                }
                assert forall|k: int, i: int|
                    0 <= k < sel@.len() && 0 <= i < self.utxos@.len() && !(#[trigger] self.utxos@[i]).is_spent
                        && !sel@.contains(i as usize) implies self.utxos@[i].txout.value <= self.utxos@[(#[trigger] sel@[k]) as int].txout.value by {
                    assert(!taken@[i]);
                    if k < old_sel.len() {
                        assert(!old_sel.contains(i as usize)) by {
                            if old_sel.contains(i as usize) {
                                let m = choose|m: int| 0 <= m < old_sel.len() && old_sel[m] == i as usize;
                                assert(sel@[m] == i as usize);
                            }
                        }
                        assert(old_sel[k] == sel@[k]);
                    }
                }
                assert forall|a: int, c: int| 0 <= a < c < sel@.len() implies self.utxos@[(#[trigger] sel@[a]) as int].txout.value
                    >= self.utxos@[(#[trigger] sel@[c]) as int].txout.value by {
                    if c == old_sel.len() {
                        assert(old_sel[a] == sel@[a]);
                        assert(!old_sel.contains(b));
                    }
                }
            }
            total = total + self.utxos[b].txout.value as u128;
        }
        (sel, total)
    }

    /// Picks outputs worth at least `amount`, largest first, and computes the
    /// change left after `amount` and the fee of a transaction with two
    /// outputs at one satoshi per byte; returns the positions picked.
    fn select_utxos_for_amount(&self, amount: u64, dust_limit: u64) -> (r: Result<(Vec<usize>, u64), WalletExtensionError>)
        ensures
            selection_outcome(
                self.utxos@,
                amount,
                match r {
                    Ok((v, c)) => Ok((v@, c)),
                    Err(e) => Err(e),
                },
            ),
    {
        let (selected, total) = self.greedy_select(amount);
        if total > u64::MAX as u128 {
            return Err(WalletExtensionError::UtxoValueOverflow);
        }
        if total < amount as u128 {
            return Err(WalletExtensionError::InsufficientFunds);
        }
        let total64 = total as u64;
        let fees = match estimate_tx_fees(selected.len(), 2, 1) {
            Some(f) => f,
            None => { return Err(WalletExtensionError::FeeCalculationOverflow); },
        };
        let change = match (total64 - amount).checked_sub(fees) {
            Some(c) => c,
            None => { return Err(WalletExtensionError::FeeCalculationOverflow); },
        };
        Ok((selected, change))
    }
}

/// The outputs after marking the picked ones spent: the same outputs, with
/// the picked ones spent and the others as they were.
pub open spec fn marked_spent(before: Seq<BitcoinUtxo>, after: Seq<BitcoinUtxo>, sel: Seq<usize>) -> bool {
    &&& after.len() == before.len()
    &&& forall|i: int|
        0 <= i < before.len() ==> {
            &&& (#[trigger] after[i]).outpoint == before[i].outpoint
            &&& after[i].txout.value == before[i].txout.value
            &&& after[i].txout.script_pubkey@ == before[i].txout.script_pubkey@
            &&& after[i].height == before[i].height
            &&& after[i].is_spent == (before[i].is_spent || sel.contains(i as usize))
        }
}

/// `tx` is the funding transaction for `value` satoshis spending the picked
/// outputs in order: output 0 locks the value (its script left empty), and
/// the change goes to `change_script` when it exceeds the dust limit.
pub open spec fn funding_tx_shape(
    tx: Tx,
    utxos: Seq<BitcoinUtxo>,
    sel: Seq<usize>,
    value: u64,
    change: u64,
    dust: u64,
    change_script: Seq<u8>,
) -> bool {
    &&& tx.version == 2
    &&& tx.lock_time == 0
    &&& tx.input@.len() == sel.len()
    &&& forall|k: int|
        0 <= k < sel.len() ==> {
            &&& (#[trigger] tx.input@[k]).previous_output == utxos[sel[k] as int].outpoint
            &&& tx.input@[k].script_sig@.len() == 0
            &&& tx.input@[k].sequence == FINAL_SEQUENCE
        }
    &&& tx.output@.len() == if change > dust { 2int } else { 1int }
    &&& tx.output@[0].value == value
    &&& tx.output@[0].script_pubkey@.len() == 0
    &&& change > dust ==> tx.output@[1].value == change && tx.output@[1].script_pubkey@ == change_script
}

impl BitcoinWalletExtension {
    /// Marks the picked outputs spent.
    fn mark_spent(&mut self, sel: &Vec<usize>)
        requires
            forall|k: int| 0 <= k < sel@.len() ==> (#[trigger] sel@[k]) < old(self).utxos@.len(),
        ensures
            marked_spent(old(self).utxos@, final(self).utxos@, sel@),
            final(self).wallet_id == old(self).wallet_id,
            final(self).network == old(self).network,
            final(self).channels == old(self).channels,
            final(self).total_balance == old(self).total_balance,
            final(self).total_locked_balance == old(self).total_locked_balance,
            final(self).state == old(self).state,
            final(self).bitcoin_config == old(self).bitcoin_config,
            final(self).transactions == old(self).transactions,
            final(self).change_script == old(self).change_script,
    {
        let ghost before = self.utxos@;
        let utxo_count = self.utxos.len();
        let n = sel.len();
        for k in 0..n
            invariant
                n == sel@.len(),
                before.len() == utxo_count,
                forall|j: int| 0 <= j < sel@.len() ==> (#[trigger] sel@[j]) < before.len(),
                marked_spent(before, self.utxos@, sel@.take(k as int)),
                self.wallet_id == old(self).wallet_id,
                self.network == old(self).network,
                self.channels == old(self).channels,
                self.total_balance == old(self).total_balance,
                self.total_locked_balance == old(self).total_locked_balance,
                self.state == old(self).state,
                self.bitcoin_config == old(self).bitcoin_config,
                self.transactions == old(self).transactions,
                self.change_script == old(self).change_script,
                before == old(self).utxos@,
        {
            let idx = sel[k];
            let u = &self.utxos[idx];
            let spent = BitcoinUtxo {
                outpoint: u.outpoint,
                txout: TxOutput { value: u.txout.value, script_pubkey: crate::btc::copy_bytes(&u.txout.script_pubkey) },
                height: u.height,
                is_spent: true,
            };
            let ghost prev = self.utxos@;
            self.utxos.set(idx, spent);
            proof {
                assert forall|i: int| 0 <= i < before.len() implies (#[trigger] self.utxos@[i]).is_spent == (before[i].is_spent
                    || sel@.take(k + 1).contains(i as usize)) by {
                    if sel@.take(k as int).contains(i as usize) {
                        let m = choose|m: int| 0 <= m < k && #[trigger] sel@.take(k as int)[m] == i as usize;
                        assert(sel@.take(k + 1)[m] == i as usize);
                    }
                    assert(sel@.take(k + 1)[k as int] == idx);
                    if i == idx as int {
                    } else if sel@.take(k + 1).contains(i as usize) {
                        let m = choose|m: int| 0 <= m < k + 1 && #[trigger] sel@.take(k + 1)[m] == i as usize;
                        assert(self.utxos@.len() == before.len());
                        assert(i as usize != idx);
                        assert(m != k);
                        assert(sel@.take(k as int)[m] == i as usize);
                    }
                }
            }
        }
        assert(sel@.take(n as int) == sel@);
    }

    /// The funding transaction of a new channel worth `channel_value`
    /// satoshis: refused below the channel reserve; otherwise picks outputs
    /// as `select_utxos_for_amount` does, spends them, locks the value in
    /// output 0 and returns the change above the dust limit to the change
    /// script. The picked outputs are marked spent; on failure nothing
    /// changes.
    pub fn create_funding_transaction(
        &mut self,
        channel_value: u64,
        counterparty_pubkey: &[u8],
    ) -> (r: Result<Tx, WalletExtensionError>)
        ensures
            final(self).wallet_id == old(self).wallet_id,
            final(self).channels == old(self).channels,
            final(self).state == old(self).state,
            final(self).bitcoin_config == old(self).bitcoin_config,
            final(self).transactions == old(self).transactions,
            final(self).change_script == old(self).change_script,
            channel_value < old(self).bitcoin_config.channel_reserve_satoshis ==> (r matches Err(e) && e
                == WalletExtensionError::BelowReserve) && final(self).utxos == old(self).utxos,
            channel_value >= old(self).bitcoin_config.channel_reserve_satoshis ==> exists|res: Result<
                (Seq<usize>, u64),
                WalletExtensionError,
            >|
                #![trigger selection_outcome(old(self).utxos@, channel_value, res)]
                selection_outcome(old(self).utxos@, channel_value, res) && match res {
                    Ok((sel, change)) => (r matches Ok(tx) && funding_tx_shape(
                        tx,
                        old(self).utxos@,
                        sel,
                        channel_value,
                        change,
                        old(self).bitcoin_config.dust_limit_satoshis,
                        old(self).change_script@,
                    )) && marked_spent(old(self).utxos@, final(self).utxos@, sel),
                    Err(e) => (r matches Err(e2) && e2 == e) && final(self).utxos == old(self).utxos,
                },
    {
        if channel_value < self.bitcoin_config.channel_reserve_satoshis {
            return Err(WalletExtensionError::BelowReserve);
        }
        let selection = self.select_utxos_for_amount(channel_value, self.bitcoin_config.dust_limit_satoshis);
        let ghost res = match &selection {
            Ok((v, c)) => Ok((v@, *c)),
            Err(e) => Err(*e),
        };
        let (selected, change_amount) = match selection {
            Ok(p) => p,
            Err(e) => {
                assert(selection_outcome(self.utxos@, channel_value, res));
                return Err(e);
            },
        };
        let mut inputs: Vec<TxInput> = Vec::new();
        let n = selected.len();
        for k in 0..n
            invariant
                n == selected@.len(),
                greedy_pick(self.utxos@, selected@, channel_value),
                inputs@.len() == k,
                forall|j: int|
                    0 <= j < k ==> {
                        &&& (#[trigger] inputs@[j]).previous_output == self.utxos@[selected@[j] as int].outpoint
                        &&& inputs@[j].script_sig@.len() == 0
                        &&& inputs@[j].sequence == FINAL_SEQUENCE
                    },
        {
            let idx = selected[k];
            assert(idx < self.utxos@.len());
            inputs.push(crate::btc::unsigned_input(self.utxos[idx].outpoint));
        }
        let mut outputs: Vec<TxOutput> = Vec::new();
        outputs.push(TxOutput { value: channel_value, script_pubkey: Vec::new() });
        if change_amount > self.bitcoin_config.dust_limit_satoshis {
            outputs.push(TxOutput { value: change_amount, script_pubkey: crate::btc::copy_bytes(&self.change_script) });
        }
        let tx = Tx { version: 2, lock_time: 0, input: inputs, output: outputs };
        let ghost before = self.utxos@;
        self.mark_spent(&selected);
        assert(selection_outcome(before, channel_value, res));
        Ok(tx)
    }
}

/// The channel an id finds: the first one with that id.
pub open spec fn lookup_channel(channels: Seq<WalletChannel>, id: [u8; 32]) -> Option<WalletChannel>
    decreases channels.len(),
{
    if channels.len() == 0 {
        None
    } else {
        match lookup_channel(channels.drop_last(), id) {
            Some(c) => Some(c),
            None => if channels.last().channel_id == id {
                Some(channels.last())
            } else {
                None
            },
        }
    }
}

/// `tx` spends only the null outpoint (the one `bitcoin` uses for "none": a
/// zero id and the largest index), with an empty script and the final
/// sequence number, as a version-2 transaction without lock time.
pub open spec fn spends_null_outpoint(tx: Tx) -> bool {
    &&& tx.version == 2
    &&& tx.lock_time == 0
    &&& tx.input@.len() == 1
    &&& tx.input@[0].previous_output.txid@ == crate::boc::zero_hash()
    &&& tx.input@[0].previous_output.vout == 0xFFFF_FFFF
    &&& tx.input@[0].script_sig@.len() == 0
    &&& tx.input@[0].sequence == FINAL_SEQUENCE
}

/// The outputs of a commitment for `state`: our balance, when it reaches the
/// dust limit, to an (as yet empty) revocable script.
pub open spec fn commitment_outputs(state: PrivateChannelState, dust: u64) -> Seq<(u64, Seq<u8>)> {
    if state.balance >= dust {
        seq![(state.balance, Seq::<u8>::empty())]
    } else {
        Seq::empty()
    }
}

/// A final state may close a channel when it comes after the channel's
/// latest state and asks for no more than the channel holds.
pub open spec fn final_state_ok(channel: WalletChannel, final_state: PrivateChannelState) -> bool {
    final_state.sequence_number > channel.seqno && final_state.balance <= channel.balance
}

/// The outputs of a closing transaction: our balance to the change script
/// when it reaches the dust limit, then the counterparty's share, counted as
/// zero, to an empty script when zero reaches the dust limit.
pub open spec fn closing_outputs(final_state: PrivateChannelState, dust: u64, change_script: Seq<u8>) -> Seq<(u64, Seq<u8>)> {
    let ours: Seq<(u64, Seq<u8>)> = if final_state.balance >= dust {
        seq![(final_state.balance, change_script)]
    } else {
        Seq::empty()
    };
    if dust == 0 {
        ours.push((0u64, Seq::<u8>::empty()))
    } else {
        ours
    }
}

/// The total of the amounts of HTLCs to add.
pub open spec fn adds_total(adds: Seq<(u64, [u8; 32])>) -> int
    decreases adds.len(),
{
    if adds.len() == 0 {
        0
    } else {
        adds_total(adds.drop_last()) + adds.last().0
    }
}

/// Some HTLC to add is below the minimum amount.
pub open spec fn any_below_minimum(adds: Seq<(u64, [u8; 32])>, minimum: u64) -> bool {
    exists|i: int| 0 <= i < adds.len() && (#[trigger] adds[i]).0 < minimum
}

/// The outputs of a transaction as values and script bytes.
pub open spec fn outputs_of(tx: Tx) -> Seq<(u64, Seq<u8>)> {
    tx@.3
}

impl BitcoinWalletExtension {
    /// The position of the channel an id finds.
    fn find_channel(&self, channel_id: &[u8; 32]) -> (r: Option<usize>)
        ensures
            r is None ==> lookup_channel(self.channels@, *channel_id) is None,
            r matches Some(i) ==> i < self.channels@.len() && lookup_channel(self.channels@, *channel_id) == Some(
                self.channels@[i as int],
            ),
    {
        let n = self.channels.len();
        for i in 0..n
            invariant
                n == self.channels@.len(),
                lookup_channel(self.channels@.take(i as int), *channel_id) is None,
        {
            assert(self.channels@.take(i + 1).drop_last() == self.channels@.take(i as int));
            if crate::btc::bytes32_eq(&self.channels[i].channel_id, channel_id) {
                proof { lemma_lookup_channel_prefix(self.channels@, *channel_id, i as int + 1); }
                return Some(i);
            }
        }
        assert(self.channels@.take(n as int) == self.channels@);
        None
    }

    /// A transaction spending the null outpoint with the given outputs.
    fn spend_null_outpoint(outputs: Vec<TxOutput>) -> (r: Tx)
        ensures
            spends_null_outpoint(r),
            r.output@ == outputs@,
    {
        let mut input: Vec<TxInput> = Vec::new();
        input.push(crate::btc::unsigned_input(OutPoint { txid: crate::boc::zero_bytes32(), vout: 0xFFFF_FFFF }));
        Tx { version: 2, lock_time: 0, input, output: outputs }
    }

    /// The commitment transaction for `state` in a channel: it spends the
    /// null outpoint (the funding outpoint is not recorded) and pays our
    /// balance, when it reaches the dust limit, to an empty revocable script.
    pub fn create_commitment_transaction(&self, channel_id: &[u8; 32], state: &PrivateChannelState) -> (r: Result<
        Tx,
        WalletExtensionError,
    >)
        ensures
            lookup_channel(self.channels@, *channel_id) is None ==> (r matches Err(e) && e
                == WalletExtensionError::ChannelNotFound),
            lookup_channel(self.channels@, *channel_id) is Some ==> (r matches Ok(tx) && spends_null_outpoint(tx)
                && outputs_of(tx) == commitment_outputs(*state, self.bitcoin_config.dust_limit_satoshis)),
    {
        if self.find_channel(channel_id).is_none() {
            return Err(WalletExtensionError::ChannelNotFound);
        }
        let mut outputs: Vec<TxOutput> = Vec::new();
        if state.balance >= self.bitcoin_config.dust_limit_satoshis {
            outputs.push(TxOutput { value: state.balance, script_pubkey: Vec::new() });
        }
        let tx = Self::spend_null_outpoint(outputs);
        assert(outputs_of(tx) =~= commitment_outputs(*state, self.bitcoin_config.dust_limit_satoshis));
        Ok(tx)
    }

    /// Whether `final_state` may close `channel`.
    fn verify_final_state(&self, channel: &WalletChannel, final_state: &PrivateChannelState) -> (r: bool)
        ensures
            r == final_state_ok(*channel, *final_state),
    {
        if final_state.sequence_number <= channel.seqno {
            return false;
        }
        if final_state.balance > channel.balance {
            return false;
        }
        true
    }

    /// The closing transaction of a channel for `final_state`: refused when
    /// the channel is unknown or the state may not close it; it spends the
    /// null outpoint and pays our balance, when it reaches the dust limit, to
    /// the change script.
    pub fn create_closing_transaction(&self, channel_id: &[u8; 32], final_state: &PrivateChannelState) -> (r: Result<
        Tx,
        WalletExtensionError,
    >)
        ensures
            lookup_channel(self.channels@, *channel_id) is None ==> (r matches Err(e) && e
                == WalletExtensionError::ChannelNotFound),
            lookup_channel(self.channels@, *channel_id) matches Some(c) && !final_state_ok(c, *final_state) ==> (r matches Err(
                e,
            ) && e == WalletExtensionError::InvalidFinalState),
            lookup_channel(self.channels@, *channel_id) matches Some(c) && final_state_ok(c, *final_state) ==> (r matches Ok(
                tx,
            ) && spends_null_outpoint(tx) && outputs_of(tx) == closing_outputs(
                *final_state,
                self.bitcoin_config.dust_limit_satoshis,
                self.change_script@,
            )),
    {
        let i = match self.find_channel(channel_id) {
            Some(i) => i,
            None => { return Err(WalletExtensionError::ChannelNotFound); },
        };
        if !self.verify_final_state(&self.channels[i], final_state) {
            return Err(WalletExtensionError::InvalidFinalState);
        }
        let dust = self.bitcoin_config.dust_limit_satoshis;
        let mut outputs: Vec<TxOutput> = Vec::new();
        if final_state.balance >= dust {
            outputs.push(TxOutput { value: final_state.balance, script_pubkey: crate::btc::copy_bytes(&self.change_script) });
        }
        let remote_balance: u64 = 0;
        if remote_balance >= dust {
            outputs.push(TxOutput { value: remote_balance, script_pubkey: Vec::new() });
        }
        let tx = Self::spend_null_outpoint(outputs);
        assert(outputs_of(tx) =~= closing_outputs(*final_state, dust, self.change_script@));
        Ok(tx)
    }

    /// The transaction that claims what a counterparty's revoked commitment
    /// paid out: it spends output 0 of `breaching_tx` and pays its value, less
    /// a 1000-satoshi fee (never below zero), to the change script. Refused
    /// when the breaching transaction has no output.
    pub fn create_breach_remedy_transaction(
        &self,
        channel_id: &[u8; 32],
        breaching_tx: &Tx,
        revocation_secret: &[u8],
    ) -> (r: Result<Tx, WalletExtensionError>)
        ensures
            breaching_tx.output@.len() == 0 ==> (r matches Err(e) && e == WalletExtensionError::NoRelevantOutput),
            breaching_tx.output@.len() > 0 ==> (r matches Ok(tx) && {
                &&& tx.version == 2
                &&& tx.lock_time == 0
                &&& tx.input@.len() == 1
                &&& tx.input@[0].previous_output.txid@ == spec_txid(breaching_tx@)
                &&& tx.input@[0].previous_output.vout == 0
                &&& tx.input@[0].script_sig@.len() == 0
                &&& tx.input@[0].sequence == FINAL_SEQUENCE
                &&& outputs_of(tx) == seq![
                    (
                        (if breaching_tx.output@[0].value >= 1000 { breaching_tx.output@[0].value - 1000 } else { 0 }) as u64,
                        self.change_script@,
                    ),
                ]
            }),
    {
        if breaching_tx.output.len() == 0 {
            return Err(WalletExtensionError::NoRelevantOutput);
        }
        let output_value = breaching_tx.output[0].value;
        let converted = ConvertedTransaction::new(breaching_tx);
        let txid = txid_of(&converted);
        let fee: u64 = 1000;
        let mut input: Vec<TxInput> = Vec::new();
        input.push(crate::btc::unsigned_input(OutPoint { txid, vout: 0 }));
        let mut outputs: Vec<TxOutput> = Vec::new();
        outputs.push(TxOutput { value: output_value.saturating_sub(fee), script_pubkey: crate::btc::copy_bytes(&self.change_script) });
        let tx = Tx { version: 2, lock_time: 0, input, output: outputs };
        assert(outputs_of(tx) =~= seq![
            (
                (if breaching_tx.output@[0].value >= 1000 { breaching_tx.output@[0].value - 1000 } else { 0 }) as u64,
                self.change_script@,
            ),
        ]);
        Ok(tx)
    }

    /// The channel state after adding HTLCs `adds` (amount, payment hash) and
    /// settling `removes`: refused when the channel is unknown, when more HTLCs
    /// would be open than the limit, when the amounts added exceed the
    /// in-flight limit, or when an added amount is below the minimum, in that
    /// order. The new state is the channel's with its sequence number one
    /// higher; the wallet itself does not change.
    pub fn update_htlcs(
        &mut self,
        channel_id: &[u8; 32],
        adds: Vec<(u64, [u8; 32])>,
        removes: Vec<u64>,
    ) -> (r: Result<PrivateChannelState, WalletExtensionError>)
        requires
            lookup_channel(old(self).channels@, *channel_id) matches Some(c) ==> c.state.sequence_number < u64::MAX,
        ensures
            final(self).channels == old(self).channels,
            final(self).utxos == old(self).utxos,
            final(self).state == old(self).state,
            final(self).total_balance == old(self).total_balance,
            final(self).total_locked_balance == old(self).total_locked_balance,
            final(self).bitcoin_config == old(self).bitcoin_config,
            final(self).transactions == old(self).transactions,
            ({
                let cfg = old(self).bitcoin_config;
                match lookup_channel(old(self).channels@, *channel_id) {
                    None => r == Err::<PrivateChannelState, WalletExtensionError>(WalletExtensionError::ChannelNotFound),
                    Some(c) => if adds@.len() > cfg.max_accepted_htlcs {
                        r == Err::<PrivateChannelState, WalletExtensionError>(WalletExtensionError::TooManyHtlcs)
                    } else if adds_total(adds@) > cfg.max_htlc_value_in_flight_msat {
                        r == Err::<PrivateChannelState, WalletExtensionError>(WalletExtensionError::HtlcValueTooHigh)
                    } else if any_below_minimum(adds@, cfg.htlc_minimum_msat) {
                        r == Err::<PrivateChannelState, WalletExtensionError>(WalletExtensionError::HtlcBelowMinimum)
                    } else {
                        r == Ok::<PrivateChannelState, WalletExtensionError>(
                            PrivateChannelState { sequence_number: (c.state.sequence_number + 1) as u64, ..c.state },
                        )
                    },
                }
            }),
    {
        let i = match self.find_channel(channel_id) {
            Some(i) => i,
            None => { return Err(WalletExtensionError::ChannelNotFound); },
        };
        let open_htlcs: usize = 0;
        if adds.len() > self.bitcoin_config.max_accepted_htlcs as usize - open_htlcs {
            return Err(WalletExtensionError::TooManyHtlcs);
        }
        let mut new_htlc_value: u64 = 0;
        let max_in_flight = self.bitcoin_config.max_htlc_value_in_flight_msat;
        let n = adds.len();
        for k in 0..n
            invariant
                n == adds@.len(),
                new_htlc_value == adds_total(adds@.take(k as int)),
                new_htlc_value <= max_in_flight,
                max_in_flight == self.bitcoin_config.max_htlc_value_in_flight_msat,
                lookup_channel(self.channels@, *channel_id) is Some,
                adds@.len() <= self.bitcoin_config.max_accepted_htlcs,
                self.bitcoin_config == old(self).bitcoin_config,
                self.channels == old(self).channels,
        {
            assert(adds@.take(k + 1).drop_last() == adds@.take(k as int));
            let amount = adds[k].0;
            if amount > max_in_flight - new_htlc_value {
                proof { lemma_adds_total_prefix(adds@, k as int + 1); }
                return Err(WalletExtensionError::HtlcValueTooHigh);
            }
            new_htlc_value = new_htlc_value + amount;
        }
        assert(adds@.take(n as int) == adds@);
        let mut new_state = self.channels[i].state;
        new_state.sequence_number = new_state.sequence_number + 1;
        let minimum = self.bitcoin_config.htlc_minimum_msat;
        for k in 0..n
            invariant
                n == adds@.len(),
                minimum == self.bitcoin_config.htlc_minimum_msat,
                forall|j: int| 0 <= j < k ==> (#[trigger] adds@[j]).0 >= minimum,
                lookup_channel(self.channels@, *channel_id) is Some,
                adds@.len() <= self.bitcoin_config.max_accepted_htlcs,
                adds_total(adds@) <= self.bitcoin_config.max_htlc_value_in_flight_msat,
                self.bitcoin_config == old(self).bitcoin_config,
                self.channels == old(self).channels,
        {
            if adds[k].0 < minimum {
                assert(adds@[k as int].0 < minimum);
                return Err(WalletExtensionError::HtlcBelowMinimum);
            }
        }
        Ok(new_state)
    }

    /// Records a new block: every pending transaction whose id is among
    /// `txids` becomes confirmed at `block_height`; the others keep their
    /// status.
    pub fn process_block(&mut self, block_height: u32, txids: Vec<[u8; 32]>) -> (r: Result<(), WalletExtensionError>)
        ensures
            r is Ok,
            final(self).channels == old(self).channels,
            final(self).utxos == old(self).utxos,
            final(self).state == old(self).state,
            final(self).bitcoin_config == old(self).bitcoin_config,
            final(self).transactions@.len() == old(self).transactions@.len(),
            forall|k: int|
                0 <= k < old(self).transactions@.len() ==> {
                    let (id, tx, status) = #[trigger] old(self).transactions@[k];
                    &&& final(self).transactions@[k].0 == id
                    &&& final(self).transactions@[k].1 == tx
                    &&& final(self).transactions@[k].2 == if status == BitcoinTxStatus::Pending && txids@.contains(id) {
                        BitcoinTxStatus::Confirmed(block_height)
                    } else {
                        status
                    }
                },
    {
        let ghost before = self.transactions@;
        let n = self.transactions.len();
        for k in 0..n
            invariant
                n == before.len(),
                self.transactions@.len() == n,
                self.channels == old(self).channels,
                self.utxos == old(self).utxos,
                self.state == old(self).state,
                self.bitcoin_config == old(self).bitcoin_config,
                before == old(self).transactions@,
                forall|j: int| k <= j < n ==> self.transactions@[j] == before[j],
                forall|j: int|
                    0 <= j < k ==> {
                        let (id, tx, status) = #[trigger] before[j];
                        &&& self.transactions@[j].0 == id
                        &&& self.transactions@[j].1 == tx
                        &&& self.transactions@[j].2 == if status == BitcoinTxStatus::Pending && txids@.contains(id) {
                            BitcoinTxStatus::Confirmed(block_height)
                        } else {
                            status
                        }
                    },
        {
            if self.transactions[k].2 == BitcoinTxStatus::Pending && contains_id(&txids, &self.transactions[k].0) {
                let ghost prev = self.transactions@;
                let mut entry = self.transactions.remove(k);
                entry.2 = BitcoinTxStatus::Confirmed(block_height);
                self.transactions.insert(k, entry);
                assert(self.transactions@ == prev.update(k as int, entry));
            }
        }
        self.check_channel_timeouts(block_height);
        Ok(())
    }

    /// Looks for channels that time out at `block_height`; what to do with
    /// them is not decided yet, so nothing changes.
    fn check_channel_timeouts(&self, block_height: u32) {
        let n = self.channels.len();
        for i in 0..n
            invariant
                n == self.channels@.len(),
        {
            if let Some(timeout) = self.channels[i].timeout {
                if block_height >= timeout {
                }
            }
        }
    }
}

/// Whether a list of ids holds `id`.
pub fn contains_id(ids: &Vec<[u8; 32]>, id: &[u8; 32]) -> (r: bool)
    ensures
        r == ids@.contains(*id),
{
    let n = ids.len();
    for i in 0..n
        invariant
            n == ids@.len(),
            forall|j: int| 0 <= j < i ==> ids@[j] != *id,
    {
        if crate::btc::bytes32_eq(&ids[i], id) {
            assert(ids@[i as int] == *id);
            return true;
        }
    }
    false
}

/// Once a prefix of the additions exceeds a bound, so do all of them.
pub proof fn lemma_adds_total_prefix(adds: Seq<(u64, [u8; 32])>, i: int)
    requires
        0 <= i <= adds.len(),
    ensures
        adds_total(adds.take(i)) <= adds_total(adds),
    decreases adds.len() - i,
{
    if i < adds.len() {
        assert(adds.take(i + 1).drop_last() == adds.take(i));
        lemma_adds_total_prefix(adds, i + 1);
    } else {
        assert(adds.take(i) == adds);
    }
}

/// Once a prefix of the list finds a channel, the whole list finds the same.
pub proof fn lemma_lookup_channel_prefix(channels: Seq<WalletChannel>, id: [u8; 32], i: int)
    requires
        0 < i <= channels.len(),
        channels[i - 1].channel_id == id,
        lookup_channel(channels.take(i - 1), id) is None,
    ensures
        lookup_channel(channels, id) == Some(channels[i - 1]),
    decreases channels.len() - i,
{
    assert(channels.take(i).drop_last() == channels.take(i - 1));
    assert(lookup_channel(channels.take(i), id) == Some(channels[i - 1]));
    lemma_lookup_channel_extend(channels, id, i);
}

/// A channel found in a prefix is found in the whole list.
pub proof fn lemma_lookup_channel_extend(channels: Seq<WalletChannel>, id: [u8; 32], i: int)
    requires
        0 <= i <= channels.len(),
        lookup_channel(channels.take(i), id) is Some,
    ensures
        lookup_channel(channels, id) == lookup_channel(channels.take(i), id),
    decreases channels.len() - i,
{
    if i < channels.len() {
        assert(channels.take(i + 1).drop_last() == channels.take(i));
        lemma_lookup_channel_extend(channels, id, i + 1);
    } else {
        assert(channels.take(i) == channels);
    }
}

/// Fee for a transaction of the given shape: 10 bytes of framing, 148 per
/// input and 34 per output, at `fee_rate` per byte.
pub open spec fn spec_tx_fee(input_count: int, output_count: int, fee_rate: int) -> int {
    (10 + 148 * input_count + 34 * output_count) * fee_rate
}

/// Estimates a transaction's fee from its shape; `None` when it does not fit
/// in a `u64`.
pub fn estimate_tx_fees(input_count: usize, output_count: usize, fee_rate: u64) -> (r: Option<u64>)
    ensures
        spec_tx_fee(input_count as int, output_count as int, fee_rate as int) <= u64::MAX ==> r == Some(
            spec_tx_fee(input_count as int, output_count as int, fee_rate as int) as u64,
        ),
        spec_tx_fee(input_count as int, output_count as int, fee_rate as int) > u64::MAX ==> r is None,
{
    let ins = input_count as u128;
    let outs = output_count as u128;
    let size: u128 = 10 + 148 * ins + 34 * outs;
    if size > u64::MAX as u128 {
        proof {
            if fee_rate == 0 {
                assert(spec_tx_fee(input_count as int, output_count as int, fee_rate as int) == 0);
            }
        }
        if fee_rate == 0 {
            return Some(0);
        }
        assert(size * fee_rate >= size) by (nonlinear_arith)
            requires
                fee_rate >= 1,
                size >= 0,
        ;
        return None;
    }
    let size64 = size as u64;
    let fee = size64.checked_mul(fee_rate);
    fee
}

/// Once a prefix of the outputs is worth more than a `u64`, so are all of
/// them.
pub proof fn lemma_unspent_total_prefix(utxos: Seq<BitcoinUtxo>, i: int)
    requires
        0 <= i <= utxos.len(),
        unspent_total(utxos.take(i)) > u64::MAX,
    ensures
        unspent_total(utxos) > u64::MAX,
    decreases utxos.len() - i,
{
    if i < utxos.len() {
        assert(utxos.take(i + 1).drop_last() == utxos.take(i));
        lemma_unspent_total_prefix(utxos, i + 1);
    } else {
        assert(utxos.take(i) == utxos);
    }
}

/// Once a prefix of the channels holds more than a `u64`, so do all of them.
pub proof fn lemma_channels_total_prefix(channels: Seq<WalletChannel>, i: int)
    requires
        0 <= i <= channels.len(),
        channels_total(channels.take(i)) > u64::MAX,
    ensures
        channels_total(channels) > u64::MAX,
    decreases channels.len() - i,
{
    if i < channels.len() {
        assert(channels.take(i + 1).drop_last() == channels.take(i));
        lemma_channels_total_prefix(channels, i + 1);
    } else {
        assert(channels.take(i) == channels);
    }
}

} // verus!
