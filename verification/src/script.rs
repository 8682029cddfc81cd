use vstd::prelude::*;

use crate::hashing::append_bytes;

verus! {

/// Script opcodes used by the channel and HTLC scripts.
pub const OP_0: u8 = 0x00;
pub const OP_IF: u8 = 0x63;
pub const OP_ELSE: u8 = 0x67;
pub const OP_ENDIF: u8 = 0x68;
pub const OP_DROP: u8 = 0x75;
pub const OP_DUP: u8 = 0x76;
pub const OP_EQUAL: u8 = 0x87;
pub const OP_HASH160: u8 = 0xa9;
pub const OP_CHECKSIG: u8 = 0xac;
pub const OP_CHECKSIGVERIFY: u8 = 0xad;
pub const OP_CLTV: u8 = 0xb1;
pub const OP_CSV: u8 = 0xb2;

/// The minimal little-endian bytes of a positive number: its low byte, then
/// those of the rest, down to the last non-zero byte.
pub open spec fn le_min(n: nat) -> Seq<u8>
    decreases n,
{
    if n <= 0xff {
        seq![n as u8]
    } else {
        seq![(n % 256) as u8] + le_min(n / 256)
    }
}

/// The script-number encoding of a number above 16: its minimal
/// little-endian bytes, with a zero byte added when the top bit of the last
/// one is set (so that it does not read as negative).
pub open spec fn script_num(n: nat) -> Seq<u8> {
    let b = le_min(n);
    if b.last() >= 0x80 {
        b.push(0u8)
    } else {
        b
    }
}

/// The bytes that push `n` on the stack: `OP_0` for zero, the opcode
/// `OP_1`..`OP_16` for 1 to 16, otherwise a direct push of its script number.
pub open spec fn spec_push_int(n: u32) -> Seq<u8> {
    if n == 0 {
        seq![OP_0]
    } else if n <= 16 {
        seq![(0x50 + n) as u8]
    } else {
        let d = script_num(n as nat);
        seq![d.len() as u8] + d
    }
}

/// The bytes that push `data` (shorter than 76 bytes) on the stack: its
/// length, then the data.
pub open spec fn spec_push_bytes(data: Seq<u8>) -> Seq<u8> {
    seq![data.len() as u8] + data
}

/// The number a little-endian byte string stands for.
pub open spec fn le_value(s: Seq<u8>) -> nat
    decreases s.len(),
{
    if s.len() == 0 {
        0
    } else {
        s[0] as nat + 256 * le_value(s.subrange(1, s.len() as int))
    }
}

/// The minimal bytes of a positive number, built from its low byte up.
fn le_min_bytes(n: u32) -> (r: Vec<u8>)
    ensures
        r@ == le_min(n as nat),
    decreases n,
{
    if n <= 0xff {
        let mut v: Vec<u8> = Vec::new();
        v.push(n as u8);
        v
    } else {
        let mut v: Vec<u8> = Vec::new();
        v.push((n % 256) as u8);
        let rest = le_min_bytes(n / 256);
        append_bytes(&mut v, rest.as_slice());
        v
    }
}

/// The bytes that push `n` on the stack, as `spec_push_int` states.
pub fn push_int_bytes(n: u32) -> (r: Vec<u8>)
    ensures
        r@ == spec_push_int(n),
{
    let mut v: Vec<u8> = Vec::new();
    if n == 0 {
        v.push(OP_0);
    } else if n <= 16 {
        v.push((0x50 + n) as u8);
    } else {
        let mut d = le_min_bytes(n);
        proof { lemma_le_min_len(n as nat); }
        let last = d[d.len() - 1];
        if last >= 0x80 {
            d.push(0u8);
        }
        v.push(d.len() as u8);
        append_bytes(&mut v, d.as_slice());
    }
    v
}

/// Appends the push of `data` (shorter than 76 bytes) to `out`.
pub fn append_push(out: &mut Vec<u8>, data: &[u8])
    requires
        data@.len() < 76,
    ensures
        final(out)@ == old(out)@ + spec_push_bytes(data@),
{
    out.push(data.len() as u8);
    append_bytes(out, data);
}

/// The minimal bytes of a positive number below 2^32 are one to four bytes.
pub proof fn lemma_le_min_len(n: nat)
    requires
        n <= u32::MAX,
    ensures
        1 <= le_min(n).len() <= 4,
        n < 0x100 ==> le_min(n).len() == 1,
        n < 0x10000 ==> le_min(n).len() <= 2,
        n < 0x1000000 ==> le_min(n).len() <= 3,
    decreases n,
{
    if n > 0xff {
        lemma_le_min_len(n / 256);
    }
}

/// The minimal bytes of a number read back, little-endian, as that number.
pub proof fn lemma_le_min_value(n: nat)
    ensures
        le_value(le_min(n)) == n,
    decreases n,
{
    let s = le_min(n);
    if n > 0xff {
        lemma_le_min_value(n / 256);
        assert(s.subrange(1, s.len() as int) =~= le_min(n / 256));
        assert(s[0] as nat == n % 256);
        assert(n == (n % 256) + 256 * (n / 256)) by (nonlinear_arith);
    } else {
        assert(s.subrange(1, s.len() as int) =~= Seq::<u8>::empty());
        assert(le_value(Seq::<u8>::empty()) == 0);
    }
}

/// A zero byte at the end does not change the number a byte string reads as.
pub proof fn lemma_le_value_push_zero(s: Seq<u8>)
    ensures
        le_value(s.push(0u8)) == le_value(s),
    decreases s.len(),
{
    let t = s.push(0u8);
    if s.len() > 0 {
        lemma_le_value_push_zero(s.subrange(1, s.len() as int));
        assert(t.subrange(1, t.len() as int) =~= s.subrange(1, s.len() as int).push(0u8));
        assert(t[0] == s[0]);
    } else {
        assert(t.subrange(1, t.len() as int) =~= Seq::<u8>::empty());
        assert(le_value(Seq::<u8>::empty()) == 0);
        assert(le_value(s) == 0);
    }
}

/// A pushed number reads back as itself: small numbers as their own opcode
/// (`OP_0`, or `OP_1` plus one less), larger ones as a direct push of at
/// most five bytes whose little-endian value is the number and whose last
/// byte has its sign bit clear.
pub proof fn lemma_push_int_reads_back(n: u32)
    ensures
        n == 0 ==> spec_push_int(n) == seq![OP_0],
        1 <= n <= 16 ==> spec_push_int(n) == seq![(0x50 + n) as u8],
        n > 16 ==> {
            let p = spec_push_int(n);
            let d = p.subrange(1, p.len() as int);
            &&& 2 <= p.len() <= 6
            &&& p[0] as int == d.len()
            &&& le_value(d) == n
            &&& d.last() < 0x80
        },
{
    if n > 16 {
        let b = le_min(n as nat);
        lemma_le_min_len(n as nat);
        lemma_le_min_value(n as nat);
        let d = script_num(n as nat);
        if b.last() >= 0x80 {
            lemma_le_value_push_zero(b);
        }
        let p = spec_push_int(n);
        assert(p.subrange(1, p.len() as int) =~= d);
    }
}

} // verus!
