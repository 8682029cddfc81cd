use vstd::prelude::*;

use crate::boc::BOC;
use crate::proof_types::{hex_encode, spec_hex_lower};
use crate::replication::contains32;
use vstd::string::StringExecFns;

verus! {

/// A user, or a user's data in another form.
#[derive(Debug, Clone)]
pub enum UserData {
    User(User),
    UserBoc(BOC),
}

/// A user: a name and the ids of the user's channels.
#[derive(Debug, Clone)]
pub struct User {
    pub name: String,
    pub channels: Vec<[u8; 32]>,
}

/// What the chain shows of a channel: its balance and its number of
/// transactions.
#[derive(Debug, Clone, Copy, PartialEq, Eq, Structural)]
pub struct ChannelState {
    pub balance: u64,
    pub transaction_count: u64,
}

/// The sum of the bytes of an id.
pub open spec fn byte_sum(id: Seq<u8>) -> int
    decreases id.len(),
{
    if id.len() == 0 {
        0
    } else {
        byte_sum(id.drop_last()) + id.last()
    }
}

/// The decimal digits of a number, most significant first.
pub open spec fn spec_decimal(x: u64) -> Seq<char>
    decreases x,
{
    if x < 10 {
        seq![digit_char(x)]
    } else {
        spec_decimal(x / 10) + seq![digit_char(x % 10)]
    }
}

/// The character of a decimal digit.
pub open spec fn digit_char(d: u64) -> char {
    ((48 + d) as u8) as char
}

/// Calls `u64::to_string`.
/// Claimed, as std documents for integers: the decimal digits, with no sign
/// or leading zeros.
#[verifier::external_body]
fn decimal(x: u64) -> (r: String)
    ensures
        r@ == spec_decimal(x),
{
    x.to_string()
}

/// The channel's state as the chain shows it for a user that has the
/// channel: a balance of a thousand times the sum of the id's bytes, and
/// that sum modulo 100 as the number of transactions.
pub open spec fn spec_channel_state(id: Seq<u8>) -> ChannelState {
    ChannelState { balance: (byte_sum(id) * 1000) as u64, transaction_count: (byte_sum(id) % 100) as u64 }
}

/// The 32 bytes of a slice of length 32, or `None`.
fn id_of(bytes: &[u8]) -> (r: Option<[u8; 32]>)
    ensures
        bytes@.len() == 32 ==> (r matches Some(a) && a@ == bytes@),
        bytes@.len() != 32 ==> r is None,
{
    if bytes.len() != 32 {
        return None;
    }
    let mut a = crate::boc::zero_bytes32();
    let mut j: usize = 0;
    while j < 32
        invariant
            j <= 32,
            bytes@.len() == 32,
            a@.len() == 32,
            forall|k: int| 0 <= k < j ==> a@[k] == bytes@[k],
        decreases 32 - j,
    {
        a[j] = bytes[j];
        j = j + 1;
    }
    assert(a@ =~= bytes@);
    Some(a)
}

/// The sum of the bytes of an id; at most 32 times 255.
fn sum_bytes(id: &[u8; 32]) -> (r: u64)
    ensures
        r == byte_sum(id@),
        r <= 8160,
{
    let mut total: u64 = 0;
    let mut i: usize = 0;
    while i < 32
        invariant
            i <= 32,
            id@.len() == 32,
            total == byte_sum(id@.take(i as int)),
            total <= 255 * i,
        decreases 32 - i,
    {
        assert(id@.take(i + 1).drop_last() == id@.take(i as int));
        total = total + id[i] as u64;
        i = i + 1;
    }
    assert(id@.take(32) == id@);
    total
}

impl User {
    /// A user with this name and these channels.
    pub fn new_with_channels(name: String, channels: Vec<[u8; 32]>) -> (r: Self)
        ensures
            r.name == name,
            r.channels == channels,
    {
        User { name, channels }
    }

    /// A user with this name and no channels.
    pub fn new(name: String) -> (r: Self)
        ensures
            r.name == name,
            r.channels@.len() == 0,
    {
        User { name, channels: Vec::new() }
    }

    /// A user with this name and no channels.
    pub fn new_empty(name: String) -> (r: Self)
        ensures
            r.name == name,
            r.channels@.len() == 0,
    {
        User { name, channels: Vec::new() }
    }

    /// Adds a channel id; ids not 32 bytes long are ignored.
    pub fn add_channel(&mut self, channel: &[u8])
        ensures
            final(self).name == old(self).name,
            channel@.len() == 32 ==> final(self).channels@.map_values(|a: [u8; 32]| a@) == old(self).channels@.map_values(
                |a: [u8; 32]| a@,
            ).push(channel@),
            channel@.len() != 32 ==> final(self).channels == old(self).channels,
    {
        if let Some(a) = id_of(channel) {
            self.channels.push(a);
            assert(self.channels@.map_values(|x: [u8; 32]| x@) =~= old(self).channels@.map_values(|x: [u8; 32]| x@).push(
                channel@,
            ));
        }
    }

    /// The name.
    pub fn name(&self) -> (r: String)
        ensures
            r@ == self.name@,
    {
        self.name.clone()
    }

    /// How many channels the user has.
    pub fn get_channel_count(&self) -> (r: usize)
        ensures
            r == self.channels@.len(),
    {
        self.channels.len()
    }

    /// The channel ids, in order, as byte lists.
    pub fn get_channel_ids(&self) -> (r: Vec<Vec<u8>>)
        ensures
            r@.len() == self.channels@.len(),
            forall|i: int| 0 <= i < r@.len() ==> (#[trigger] r@[i])@ == self.channels@[i]@,
    {
        let mut out: Vec<Vec<u8>> = Vec::new();
        let n = self.channels.len();
        for i in 0..n
            invariant
                n == self.channels@.len(),
                out@.len() == i,
                forall|k: int| 0 <= k < i ==> (#[trigger] out@[k])@ == self.channels@[k]@,
        {
            let mut v: Vec<u8> = Vec::new();
            crate::hashing::append_bytes(&mut v, self.channels[i].as_slice());
            out.push(v);
        }
        out
    }

    /// The display name of a channel: `Channel-` and the id in lowercase
    /// hexadecimal.
    pub fn get_channel_name(&self, channel_id: &[u8]) -> (r: String)
        ensures
            r@ == "Channel-"@ + spec_hex_lower(channel_id@),
    {
        let mut name = "Channel-".to_owned();
        let hex = hex_encode(channel_id);
        name.append(hex.as_str());
        name
    }

    /// The display names of the channels, in order.
    pub fn get_channel_names(&self) -> (r: Vec<String>)
        ensures
            r@.len() == self.channels@.len(),
            forall|i: int| 0 <= i < r@.len() ==> (#[trigger] r@[i])@ == "Channel-"@ + spec_hex_lower(self.channels@[i]@),
    {
        let mut out: Vec<String> = Vec::new();
        let n = self.channels.len();
        for i in 0..n
            invariant
                n == self.channels@.len(),
                out@.len() == i,
                forall|k: int| 0 <= k < i ==> (#[trigger] out@[k])@ == "Channel-"@ + spec_hex_lower(self.channels@[k]@),
        {
            let name = self.get_channel_name(self.channels[i].as_slice());
            out.push(name);
        }
        out
    }

    /// The chain's state of a channel: for an id of 32 bytes that the user
    /// has, `spec_channel_state` of it; zeros otherwise.
    pub fn query_blockchain_state(&self, channel_id: &[u8]) -> (r: ChannelState)
        ensures
            channel_id@.len() == 32 && self.channels@.map_values(|a: [u8; 32]| a@).contains(channel_id@) ==> r
                == spec_channel_state(channel_id@),
            !(channel_id@.len() == 32 && self.channels@.map_values(|a: [u8; 32]| a@).contains(channel_id@)) ==> r
                == (ChannelState { balance: 0, transaction_count: 0 }),
    {
        let id = match id_of(channel_id) {
            Some(a) => a,
            None => crate::boc::zero_bytes32(),
        };
        let held = contains32(&self.channels, &id);
        proof {
            lemma_held_ids(self.channels@, id, channel_id@);
        }
        if held {
            let total = sum_bytes(&id);
            let state = ChannelState { balance: total * 1000, transaction_count: total % 100 };
            if channel_id.len() != 32 {
                proof {
                    lemma_zero_sum(id@);
                }
            }
            state
        } else {
            ChannelState { balance: 0, transaction_count: 0 }
        }
    }

    /// The chain's state of a channel.
    pub fn get_channel_state(&self, channel_id: &[u8]) -> (r: ChannelState)
        ensures
            r == self.spec_query(channel_id@),
    {
        self.query_blockchain_state(channel_id)
    }

    /// What `query_blockchain_state` gives for an id.
    pub open spec fn spec_query(&self, id: Seq<u8>) -> ChannelState {
        if id.len() == 32 && self.channels@.map_values(|a: [u8; 32]| a@).contains(id) {
            spec_channel_state(id)
        } else {
            ChannelState { balance: 0, transaction_count: 0 }
        }
    }

    /// A channel's balance: zero for an id that is not 32 bytes or not the
    /// user's.
    pub fn get_channel_balance(&self, channel_id: &[u8]) -> (r: u64)
        ensures
            r == self.spec_query(channel_id@).balance,
    {
        if channel_id.len() != 32 {
            return 0;
        }
        self.query_blockchain_state(channel_id).balance
    }

    /// A channel's number of transactions: zero for an id that is not 32
    /// bytes or not the user's.
    pub fn get_channel_transaction_count(&self, channel_id: &[u8]) -> (r: u64)
        ensures
            r == self.spec_query(channel_id@).transaction_count,
    {
        if channel_id.len() != 32 {
            return 0;
        }
        self.query_blockchain_state(channel_id).transaction_count
    }

    /// A channel's state as text: `Balance: <b>, Transactions: <t>`.
    pub fn get_channel_state_string(&self, channel_id: &[u8]) -> (r: String)
        ensures
            r@ == "Balance: "@ + spec_decimal(self.spec_query(channel_id@).balance) + ", Transactions: "@ + spec_decimal(
                self.spec_query(channel_id@).transaction_count,
            ),
    {
        let state = self.query_blockchain_state(channel_id);
        let mut text = "Balance: ".to_owned();
        let b = decimal(state.balance);
        text.append(b.as_str());
        text.append(", Transactions: ");
        let t = decimal(state.transaction_count);
        text.append(t.as_str());
        text
    }
}

impl Default for User {
    fn default() -> (r: Self)
        ensures
            r.name@.len() == 0,
            r.channels@.len() == 0,
    {
        User { name: String::new(), channels: Vec::new() }
    }
}

/// An id the user holds as an array is held as bytes, and the other way.
pub proof fn lemma_held_ids(channels: Seq<[u8; 32]>, id: [u8; 32], bytes: Seq<u8>)
    ensures
        bytes.len() == 32 && id@ == bytes ==> (channels.contains(id) <==> channels.map_values(|a: [u8; 32]| a@).contains(
            bytes,
        )),
        bytes.len() != 32 ==> !channels.map_values(|a: [u8; 32]| a@).contains(bytes),
{
    let views = channels.map_values(|a: [u8; 32]| a@);
    if bytes.len() == 32 && id@ == bytes {
        if channels.contains(id) {
            let k = choose|k: int| 0 <= k < channels.len() && channels[k] == id;
            assert(views[k] == bytes);
        }
        if views.contains(bytes) {
            let k = choose|k: int| 0 <= k < views.len() && views[k] == bytes;
            crate::replication::lemma_array32_of(bytes, channels[k]);
            crate::replication::lemma_array32_of(bytes, id);
            assert(channels[k] == id);
        }
    }
    if bytes.len() != 32 && views.contains(bytes) {
        let k = choose|k: int| 0 <= k < views.len() && views[k] == bytes;
        assert(views[k].len() == 32);
    }
}

/// Thirty-two zero bytes sum to zero.
pub proof fn lemma_zero_sum(id: Seq<u8>)
    requires
        id == crate::boc::zero_hash(),
    ensures
        byte_sum(id) == 0,
{
    assert forall|i: int| 0 <= i <= 32 implies byte_sum(#[trigger] id.take(i)) == 0 by {
        lemma_zero_prefix(id, i);
    }
    assert(id.take(32) == id);
}

/// Every prefix of zero bytes sums to zero.
proof fn lemma_zero_prefix(id: Seq<u8>, i: int)
    requires
        id == crate::boc::zero_hash(),
        0 <= i <= 32,
    ensures
        byte_sum(id.take(i)) == 0,
    decreases i,
{
    if i > 0 {
        lemma_zero_prefix(id, i - 1);
        assert(id.take(i).drop_last() == id.take(i - 1));
    }
}

} // verus!
