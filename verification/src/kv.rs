use vstd::prelude::*;

verus! {

/// The value a list of key-value pairs gives a key: that of its first entry
/// for the key.
pub open spec fn lookup_first<K, V>(s: Seq<(K, V)>, k: K) -> Option<V>
    decreases s.len(),
{
    if s.len() == 0 {
        None
    } else {
        match lookup_first(s.drop_last(), k) {
            Some(v) => Some(v),
            None => if s.last().0 == k {
                Some(s.last().1)
            } else {
                None
            },
        }
    }
}

/// A key found in a prefix is found with the same value in the whole list.
pub proof fn lemma_lookup_first_extend<K, V>(s: Seq<(K, V)>, k: K, i: int)
    requires
        0 <= i <= s.len(),
        lookup_first(s.take(i), k) is Some,
    ensures
        lookup_first(s, k) == lookup_first(s.take(i), k),
    decreases s.len() - i,
{
    if i < s.len() {
        assert(s.take(i + 1).drop_last() == s.take(i));
        lemma_lookup_first_extend(s, k, i + 1);
    } else {
        assert(s.take(i) == s);
    }
}

/// The first entry for a key gives its value.
pub proof fn lemma_lookup_first_found<K, V>(s: Seq<(K, V)>, k: K, i: int)
    requires
        0 <= i < s.len(),
        s[i].0 == k,
        lookup_first(s.take(i), k) is None,
    ensures
        lookup_first(s, k) == Some(s[i].1),
{
    assert(s.take(i + 1).drop_last() == s.take(i));
    lemma_lookup_first_extend(s, k, i + 1);
}

/// When no entry has the key, the whole list gives nothing for it.
pub proof fn lemma_lookup_first_absent<K, V>(s: Seq<(K, V)>, k: K)
    requires
        forall|j: int| 0 <= j < s.len() ==> (#[trigger] s[j]).0 != k,
    ensures
        lookup_first(s, k) is None,
    decreases s.len(),
{
    if s.len() > 0 {
        lemma_lookup_first_absent(s.drop_last(), k);
    }
}

/// Overwriting the first entry for a key changes what the key gives and
/// nothing else.
pub proof fn lemma_lookup_first_update<K, V>(s: Seq<(K, V)>, k: K, v: V, i: int, x: K)
    requires
        0 <= i < s.len(),
        s[i].0 == k,
        lookup_first(s.take(i), k) is None,
    ensures
        lookup_first(s.update(i, (k, v)), x) == if x == k { Some(v) } else { lookup_first(s, x) },
{
    lemma_lookup_first_update_prefix(s, k, v, i, x, s.len() as int);
    assert(s.update(i, (k, v)).take(s.len() as int) == s.update(i, (k, v)));
    assert(s.take(s.len() as int) == s);
}

/// The prefixes longer than `i` of the overwritten list agree with those of
/// the list before, except at the key.
pub proof fn lemma_lookup_first_update_prefix<K, V>(s: Seq<(K, V)>, k: K, v: V, i: int, x: K, j: int)
    requires
        0 <= i < j <= s.len(),
        s[i].0 == k,
        lookup_first(s.take(i), k) is None,
    ensures
        lookup_first(s.update(i, (k, v)).take(j), x) == if x == k { Some(v) } else { lookup_first(s.take(j), x) },
    decreases j,
{
    let u = s.update(i, (k, v));
    assert(u.take(j).drop_last() == u.take(j - 1));
    assert(s.take(j).drop_last() == s.take(j - 1));
    if j == i + 1 {
        assert(u.take(j - 1) == s.take(i));
    } else {
        lemma_lookup_first_update_prefix(s, k, v, i, x, j - 1);
    }
}

/// Appending an entry for a key the list does not have makes the key give
/// its value and changes nothing else.
pub proof fn lemma_lookup_first_push<K, V>(s: Seq<(K, V)>, k: K, v: V, x: K)
    requires
        lookup_first(s, k) is None,
    ensures
        lookup_first(s.push((k, v)), x) == if x == k { Some(v) } else { lookup_first(s, x) },
{
    assert(s.push((k, v)).drop_last() == s);
}

/// The position of the first entry for a 32-byte key.
pub fn position32<V>(v: &Vec<([u8; 32], V)>, k: &[u8; 32]) -> (r: Option<usize>)
    ensures
        r is None ==> lookup_first(v@, *k) is None,
        r matches Some(i) ==> i < v@.len() && v@[i as int].0 == *k && lookup_first(v@.take(i as int), *k) is None
            && lookup_first(v@, *k) == Some(v@[i as int].1),
{
    let n = v.len();
    for i in 0..n
        invariant
            n == v@.len(),
            forall|j: int| 0 <= j < i ==> (#[trigger] v@[j]).0 != *k,
    {
        if crate::btc::bytes32_eq(&v[i].0, k) {
            proof {
                lemma_lookup_first_absent(v@.take(i as int), *k);
                lemma_lookup_first_found(v@, *k, i as int);
            }
            return Some(i);
        }
    }
    proof { lemma_lookup_first_absent(v@, *k); }
    None
}

/// Makes a 32-byte key give `val`: overwrites its first entry, or appends
/// one. What other keys give is unchanged.
pub fn upsert32<V>(v: &mut Vec<([u8; 32], V)>, k: [u8; 32], val: V)
    ensures
        forall|x: [u8; 32]| #[trigger] lookup_first(final(v)@, x) == if x == k {
            Some(val)
        } else {
            lookup_first(old(v)@, x)
        },
{
    let ghost before = v@;
    match position32(v, &k) {
        Some(i) => {
            v.set(i, (k, val));
            proof {
                assert forall|x: [u8; 32]| #[trigger] lookup_first(v@, x) == if x == k {
                    Some(val)
                } else {
                    lookup_first(before, x)
                } by {
                    lemma_lookup_first_update(before, k, val, i as int, x);
                }
            }
        },
        None => {
            v.push((k, val));
            proof {
                assert forall|x: [u8; 32]| #[trigger] lookup_first(v@, x) == if x == k {
                    Some(val)
                } else {
                    lookup_first(before, x)
                } by {
                    lemma_lookup_first_push(before, k, val, x);
                }
            }
        },
    }
}

} // verus!
