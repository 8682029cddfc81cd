use vstd::prelude::*;

verus! {

/// The SHA-256 digest of a byte string, as the `sha2` crate computes it.
pub uninterp spec fn spec_sha256(data: Seq<u8>) -> Seq<u8>;

/// Calls `sha2::Sha256::digest` on `data`.
/// Claimed: the 32-byte result is the SHA-256 digest of `data` (named
/// `spec_sha256`); the same bytes always give the same digest.
#[verifier::external_body]
pub(crate) fn sha256_digest(data: &[u8]) -> (r: [u8; 32])
    ensures
        r@ == spec_sha256(data@),
{
    <sha2::Sha256 as sha2::Digest>::digest(data).into()
}

/// Double SHA-256, the hash Bitcoin uses for identifiers.
pub open spec fn spec_sha256d(data: Seq<u8>) -> Seq<u8> {
    spec_sha256(spec_sha256(data))
}

/// Calls `bitcoin_hashes::sha256d::Hash::hash` on `data`.
/// Claimed: the 32 bytes are SHA-256 applied to the SHA-256 digest of
/// `data` (the crate's `from_engine` hashes the first digest again), i.e.
/// `spec_sha256d` of it.
#[verifier::external_body]
pub(crate) fn sha256d_digest(data: &[u8]) -> (r: [u8; 32])
    ensures
        r@ == spec_sha256d(data@),
{
    <bitcoin_hashes::sha256d::Hash as bitcoin_hashes::Hash>::to_byte_array(
        <bitcoin_hashes::sha256d::Hash as bitcoin_hashes::Hash>::hash(data),
    )
}

/// Concatenation of a sequence of byte strings, in order.
pub open spec fn flatten(parts: Seq<Seq<u8>>) -> Seq<u8>
    decreases parts.len(),
{
    if parts.len() == 0 {
        Seq::empty()
    } else {
        flatten(parts.drop_last()) + parts.last()
    }
}

/// The byte strings held by a vector of byte vectors.
pub open spec fn byte_rows(v: Seq<Vec<u8>>) -> Seq<Seq<u8>> {
    v.map_values(|row: Vec<u8>| row@)
}

/// Appends `bytes` to `out`.
pub fn append_bytes(out: &mut Vec<u8>, bytes: &[u8])
    ensures
        final(out)@ == old(out)@ + bytes@,
{
    let ghost start = out@;
    let n = bytes.len();
    for j in 0..n
        invariant
            n == bytes@.len(),
            out@ == start + bytes@.take(j as int),
    {
        out.push(bytes[j]);
        assert(bytes@.take(j + 1) == bytes@.take(j as int).push(bytes@[j as int]));
    }
    assert(bytes@.take(n as int) == bytes@);
}

/// Appends every row of `parts`, in order, to `out`.
pub fn append_rows(out: &mut Vec<u8>, parts: &Vec<Vec<u8>>)
    ensures
        final(out)@ == old(out)@ + flatten(byte_rows(parts@)),
{
    let ghost start = out@;
    let n = parts.len();
    for i in 0..n
        invariant
            n == parts@.len(),
            out@ == start + flatten(byte_rows(parts@).take(i as int)),
    {
        let ghost before = out@;
        append_bytes(out, parts[i].as_slice());
        proof {
            let rows = byte_rows(parts@);
            assert(rows.take(i + 1).drop_last() == rows.take(i as int));
            assert(rows.take(i + 1).last() == parts@[i as int]@);
            assert(flatten(rows.take(i + 1)) == flatten(rows.take(i as int)) + parts@[i as int]@);
            assert(out@ == start + flatten(rows.take(i + 1)));
        }
    }
    assert(byte_rows(parts@).take(n as int) == byte_rows(parts@));
}

} // verus!
