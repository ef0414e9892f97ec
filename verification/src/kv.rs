//! Association-list stores for the ledger's mappings, with defined defaults:
//! an absent token maps to the zero address, an absent address to a zero
//! balance, an absent owner/operator pair to false. Keys are kept distinct,
//! and a counting function over the stored values supports the ledger's
//! balance bookkeeping.

use vstd::prelude::*;
use crate::types::Address;
use crate::u256::U256;

verus! {

/// First-match lookup; `d` when the key is absent.
pub open spec fn kv_lookup<K, V>(s: Seq<(K, V)>, k: K, d: V) -> V
    decreases s.len(),
{
    if s.len() == 0 {
        d
    } else if s[0].0 == k {
        s[0].1
    } else {
        kv_lookup(s.drop_first(), k, d)
    }
}

/// Whether some entry carries the key `k`.
pub open spec fn kv_contains<K, V>(s: Seq<(K, V)>, k: K) -> bool {
    exists|i: int| 0 <= i < s.len() && (#[trigger] s[i]).0 == k
}

/// Whether no two entries share a key.
pub open spec fn kv_distinct<K, V>(s: Seq<(K, V)>) -> bool {
    forall|i: int, j: int| 0 <= i < j < s.len() ==> (#[trigger] s[i]).0 != (#[trigger] s[j]).0
}

/// How many entries carry the value `a`.
pub open spec fn kv_count<K, V>(s: Seq<(K, V)>, a: V) -> nat
    decreases s.len(),
{
    if s.len() == 0 {
        0
    } else {
        kv_count(s.drop_last(), a) + (if s.last().1 == a { 1nat } else { 0nat })
    }
}

/// An absent key looks up to the default.
pub proof fn lemma_kv_absent<K, V>(s: Seq<(K, V)>, k: K, d: V)
    requires
        !kv_contains(s, k),
    ensures
        kv_lookup(s, k, d) == d,
    decreases s.len(),
{
    if s.len() > 0 {
        assert(s[0].0 != k);
        assert forall|i: int| 0 <= i < s.drop_first().len()
            implies (#[trigger] s.drop_first()[i]).0 != k by {
            assert(s.drop_first()[i] == s[i + 1]);
        }
        lemma_kv_absent(s.drop_first(), k, d);
    }
}

/// When the entries before `i` miss the key and entry `i` has it, the lookup
/// returns entry `i`'s value.
pub proof fn lemma_kv_lookup_at<K, V>(s: Seq<(K, V)>, i: int, k: K, d: V)
    requires
        0 <= i < s.len(),
        s[i].0 == k,
        forall|j: int| 0 <= j < i ==> (#[trigger] s[j]).0 != k,
    ensures
        kv_lookup(s, k, d) == s[i].1,
    decreases i,
{
    if i > 0 {
        assert(s.drop_first()[i - 1] == s[i]);
        assert forall|j: int| 0 <= j < i - 1
            implies (#[trigger] s.drop_first()[j]).0 != k by {
            assert(s.drop_first()[j] == s[j + 1]);
        }
        lemma_kv_lookup_at(s.drop_first(), i - 1, k, d);
    }
}

/// Replacing the value of entry `i` leaves lookups of other keys unchanged.
pub proof fn lemma_kv_lookup_update_val<K, V>(s: Seq<(K, V)>, i: int, val: V, q: K, d: V)
    requires
        0 <= i < s.len(),
        q != s[i].0,
    ensures
        kv_lookup(s.update(i, (s[i].0, val)), q, d) == kv_lookup(s, q, d),
    decreases i,
{
    let t = s.update(i, (s[i].0, val));
    if i == 0 {
        assert(t.drop_first() =~= s.drop_first());
    } else {
        assert(t[0] == s[0]);
        if s[0].0 != q {
            assert(t.drop_first() =~= s.drop_first().update(i - 1, (s.drop_first()[i - 1].0, val)));
            lemma_kv_lookup_update_val(s.drop_first(), i - 1, val, q, d);
        }
    }
}

/// Appending an entry changes only the lookup of a key that was absent.
pub proof fn lemma_kv_lookup_push<K, V>(s: Seq<(K, V)>, p: (K, V), q: K, d: V)
    ensures
        kv_lookup(s.push(p), q, d) == if kv_contains(s, q) {
            kv_lookup(s, q, d)
        } else if p.0 == q {
            p.1
        } else {
            d
        },
    decreases s.len(),
{
    let t = s.push(p);
    if s.len() == 0 {
        assert(t[0] == p);
        assert(t.drop_first() =~= Seq::<(K, V)>::empty());
        assert(!kv_contains(s, q));
        if p.0 == q {
            assert(kv_lookup(t, q, d) == p.1);
        } else {
            assert(kv_lookup(t, q, d) == kv_lookup(t.drop_first(), q, d));
            assert(kv_lookup(t.drop_first(), q, d) == d);
        }
    } else {
        assert(t[0] == s[0]);
        assert(t.drop_first() =~= s.drop_first().push(p));
        lemma_kv_lookup_push(s.drop_first(), p, q, d);
        if s[0].0 == q {
            assert(kv_contains(s, q));
        } else {
            assert(kv_contains(s, q) == kv_contains(s.drop_first(), q)) by {
                if kv_contains(s, q) {
                    let w = choose|w: int| 0 <= w < s.len() && (#[trigger] s[w]).0 == q;
                    assert(s.drop_first()[w - 1] == s[w]);
                }
                if kv_contains(s.drop_first(), q) {
                    let w = choose|w: int|
                        0 <= w < s.drop_first().len() && (#[trigger] s.drop_first()[w]).0 == q;
                    assert(s[w + 1] == s.drop_first()[w]);
                }
            }
        }
    }
}

/// A present key looks up to the value of one of its entries.
pub proof fn lemma_kv_contains_lookup<K, V>(s: Seq<(K, V)>, k: K, d: V)
    requires
        kv_contains(s, k),
    ensures
        exists|i: int| 0 <= i < s.len() && #[trigger] s[i] == (k, kv_lookup(s, k, d)),
    decreases s.len(),
{
    if s[0].0 == k {
        assert(s[0] == (k, kv_lookup(s, k, d)));
    } else {
        let w = choose|w: int| 0 <= w < s.len() && (#[trigger] s[w]).0 == k;
        assert(s.drop_first()[w - 1] == s[w]);
        assert(kv_contains(s.drop_first(), k));
        lemma_kv_contains_lookup(s.drop_first(), k, d);
        let i = choose|i: int|
            0 <= i < s.drop_first().len()
                && #[trigger] s.drop_first()[i] == (k, kv_lookup(s.drop_first(), k, d));
        assert(s[i + 1] == s.drop_first()[i]);
    }
}

/// No value is carried by more entries than there are.
pub proof fn lemma_kv_count_le_len<K, V>(s: Seq<(K, V)>, a: V)
    ensures
        kv_count(s, a) <= s.len(),
    decreases s.len(),
{
    if s.len() > 0 {
        lemma_kv_count_le_len(s.drop_last(), a);
    }
}

/// An entry carrying the value witnesses a positive count.
pub proof fn lemma_kv_count_member<K, V>(s: Seq<(K, V)>, i: int, a: V)
    requires
        0 <= i < s.len(),
        s[i].1 == a,
    ensures
        kv_count(s, a) >= 1,
    decreases s.len(),
{
    if i < s.len() - 1 {
        assert(s.drop_last()[i] == s[i]);
        lemma_kv_count_member(s.drop_last(), i, a);
    }
}

/// How replacing entry `i` moves the count: the old value's contribution
/// leaves, the new value's enters.
pub proof fn lemma_kv_count_update<K, V>(s: Seq<(K, V)>, i: int, p: (K, V), a: V)
    requires
        0 <= i < s.len(),
    ensures
        kv_count(s.update(i, p), a) + (if s[i].1 == a { 1nat } else { 0nat })
            == kv_count(s, a) + (if p.1 == a { 1nat } else { 0nat }),
    decreases s.len(),
{
    let t = s.update(i, p);
    if i == s.len() - 1 {
        assert(t.drop_last() =~= s.drop_last());
        assert(t.last() == p);
    } else {
        assert(t.drop_last() =~= s.drop_last().update(i, p));
        assert(t.last() == s.last());
        assert(s.drop_last()[i] == s[i]);
        lemma_kv_count_update(s.drop_last(), i, p, a);
    }
}

/// Appending an entry adds its value's contribution to the count.
pub proof fn lemma_kv_count_push<K, V>(s: Seq<(K, V)>, p: (K, V), a: V)
    ensures
        kv_count(s.push(p), a) == kv_count(s, a) + (if p.1 == a { 1nat } else { 0nat }),
{
    assert(s.push(p).drop_last() =~= s);
    assert(s.push(p).last() == p);
}

/// Lookup in a token-keyed store, the zero address when absent.
pub fn tok_get(v: &Vec<(U256, Address)>, k: U256) -> (r: Address)
    ensures
        r == kv_lookup(v@, k, Address::spec_zero()),
{
    let n = v.len();
    let mut i: usize = 0;
    while i < n
        invariant
            n == v@.len(),
            0 <= i <= n,
            forall|j: int| 0 <= j < i ==> (#[trigger] v@[j]).0 != k,
        decreases n - i,
    {
        let e = v[i];
        if e.0 == k {
            proof {
                lemma_kv_lookup_at(v@, i as int, k, Address::spec_zero());
            }
            return e.1;
        }
        i = i + 1;
    }
    proof {
        assert(!kv_contains(v@, k));
        lemma_kv_absent(v@, k, Address::spec_zero());
    }
    Address::zero()
}

/// Write to a token-keyed store: replace the key's entry or append one.
pub fn tok_set(v: &mut Vec<(U256, Address)>, k: U256, val: Address)
    requires
        kv_distinct(old(v)@),
    ensures
        kv_distinct(final(v)@),
        final(v)@.len() <= old(v)@.len() + 1,
        kv_contains(final(v)@, k),
        forall|q: U256| #[trigger] kv_lookup(final(v)@, q, Address::spec_zero()) == if q == k {
            val
        } else {
            kv_lookup(old(v)@, q, Address::spec_zero())
        },
        forall|a: Address| #[trigger] kv_count(final(v)@, a) + (if kv_contains(old(v)@, k)
                && kv_lookup(old(v)@, k, Address::spec_zero()) == a { 1nat } else { 0nat })
            == kv_count(old(v)@, a) + (if val == a { 1nat } else { 0nat }),
{
    let n = v.len();
    let mut i: usize = 0;
    while i < n
        invariant
            n == v@.len(),
            v@ == old(v)@,
            kv_distinct(v@),
            0 <= i <= n,
            forall|j: int| 0 <= j < i ==> (#[trigger] v@[j]).0 != k,
        decreases n - i,
    {
        let e = v[i];
        if e.0 == k {
            proof {
                lemma_kv_lookup_at(old(v)@, i as int, k, Address::spec_zero());
            }
            v.set(i, (k, val));
            proof {
                let s0 = old(v)@;
                assert forall|j: int| 0 <= j < v@.len() implies (#[trigger] v@[j]).0 == s0[j].0 by {}
                assert(kv_distinct(v@));
                assert(v@[i as int].0 == k);
                assert(kv_contains(v@, k));
                assert forall|q: U256| #[trigger] kv_lookup(v@, q, Address::spec_zero()) == if q == k {
                    val
                } else {
                    kv_lookup(s0, q, Address::spec_zero())
                } by {
                    if q == k {
                        lemma_kv_lookup_at(v@, i as int, k, Address::spec_zero());
                    } else {
                        assert(v@ == s0.update(i as int, (s0[i as int].0, val)));
                        lemma_kv_lookup_update_val(s0, i as int, val, q, Address::spec_zero());
                    }
                }
                assert forall|a: Address| #[trigger] kv_count(v@, a) + (if kv_contains(s0, k)
                        && kv_lookup(s0, k, Address::spec_zero()) == a { 1nat } else { 0nat })
                    == kv_count(s0, a) + (if val == a { 1nat } else { 0nat }) by {
                    lemma_kv_count_update(s0, i as int, (k, val), a);
                }
            }
            return;
        }
        i = i + 1;
    }
    proof {
        assert(!kv_contains(old(v)@, k));
        lemma_kv_absent(old(v)@, k, Address::spec_zero());
    }
    v.push((k, val));
    proof {
        let s0 = old(v)@;
        assert forall|x: int, y: int| 0 <= x < y < v@.len()
            implies (#[trigger] v@[x]).0 != (#[trigger] v@[y]).0 by {
            if y < s0.len() {
                assert(v@[x] == s0[x] && v@[y] == s0[y]);
            } else {
                assert(v@[x] == s0[x] && v@[y].0 == k);
            }
        }
        assert(v@[s0.len() as int].0 == k);
        assert(kv_contains(v@, k));
        assert forall|q: U256| #[trigger] kv_lookup(v@, q, Address::spec_zero()) == if q == k {
            val
        } else {
            kv_lookup(s0, q, Address::spec_zero())
        } by {
            lemma_kv_lookup_push(s0, (k, val), q, Address::spec_zero());
            if q != k && !kv_contains(s0, q) {
                lemma_kv_absent(s0, q, Address::spec_zero());
            }
        }
        assert forall|a: Address| #[trigger] kv_count(v@, a) + (if kv_contains(s0, k)
                && kv_lookup(s0, k, Address::spec_zero()) == a { 1nat } else { 0nat })
            == kv_count(s0, a) + (if val == a { 1nat } else { 0nat }) by {
            lemma_kv_count_push(s0, (k, val), a);
        }
    }
}

/// Lookup in an address-keyed store, a zero count when absent.
pub fn bal_get(v: &Vec<(Address, U256)>, k: Address) -> (r: U256)
    ensures
        r == kv_lookup(v@, k, U256::spec_zero()),
{
    let n = v.len();
    let mut i: usize = 0;
    while i < n
        invariant
            n == v@.len(),
            0 <= i <= n,
            forall|j: int| 0 <= j < i ==> (#[trigger] v@[j]).0 != k,
        decreases n - i,
    {
        let e = v[i];
        if e.0 == k {
            proof {
                lemma_kv_lookup_at(v@, i as int, k, U256::spec_zero());
            }
            return e.1;
        }
        i = i + 1;
    }
    proof {
        assert(!kv_contains(v@, k));
        lemma_kv_absent(v@, k, U256::spec_zero());
    }
    U256::zero()
}

/// Write to an address-keyed store: replace the key's entry or append one.
pub fn bal_set(v: &mut Vec<(Address, U256)>, k: Address, val: U256)
    requires
        kv_distinct(old(v)@),
    ensures
        kv_distinct(final(v)@),
        forall|q: Address| #[trigger] kv_lookup(final(v)@, q, U256::spec_zero()) == if q == k {
            val
        } else {
            kv_lookup(old(v)@, q, U256::spec_zero())
        },
{
    let n = v.len();
    let mut i: usize = 0;
    while i < n
        invariant
            n == v@.len(),
            v@ == old(v)@,
            kv_distinct(v@),
            0 <= i <= n,
            forall|j: int| 0 <= j < i ==> (#[trigger] v@[j]).0 != k,
        decreases n - i,
    {
        let e = v[i];
        if e.0 == k {
            v.set(i, (k, val));
            proof {
                let s0 = old(v)@;
                assert forall|j: int| 0 <= j < v@.len() implies (#[trigger] v@[j]).0 == s0[j].0 by {}
                assert(kv_distinct(v@));
                assert forall|q: Address| #[trigger] kv_lookup(v@, q, U256::spec_zero()) == if q == k {
                    val
                } else {
                    kv_lookup(s0, q, U256::spec_zero())
                } by {
                    if q == k {
                        lemma_kv_lookup_at(v@, i as int, k, U256::spec_zero());
                    } else {
                        assert(v@ == s0.update(i as int, (s0[i as int].0, val)));
                        lemma_kv_lookup_update_val(s0, i as int, val, q, U256::spec_zero());
                    }
                }
            }
            return;
        }
        i = i + 1;
    }
    proof {
        assert(!kv_contains(old(v)@, k));
    }
    v.push((k, val));
    proof {
        let s0 = old(v)@;
        assert forall|x: int, y: int| 0 <= x < y < v@.len()
            implies (#[trigger] v@[x]).0 != (#[trigger] v@[y]).0 by {
            if y < s0.len() {
                assert(v@[x] == s0[x] && v@[y] == s0[y]);
            } else {
                assert(v@[x] == s0[x] && v@[y].0 == k);
            }
        }
        assert forall|q: Address| #[trigger] kv_lookup(v@, q, U256::spec_zero()) == if q == k {
            val
        } else {
            kv_lookup(s0, q, U256::spec_zero())
        } by {
            lemma_kv_lookup_push(s0, (k, val), q, U256::spec_zero());
            if q != k && !kv_contains(s0, q) {
                lemma_kv_absent(s0, q, U256::spec_zero());
            }
        }
    }
}

/// Lookup in a pair-keyed store, false when absent.
pub fn op_get(v: &Vec<((Address, Address), bool)>, o: Address, p: Address) -> (r: bool)
    ensures
        r == kv_lookup(v@, (o, p), false),
{
    let n = v.len();
    let mut i: usize = 0;
    while i < n
        invariant
            n == v@.len(),
            0 <= i <= n,
            forall|j: int| 0 <= j < i ==> (#[trigger] v@[j]).0 != (o, p),
        decreases n - i,
    {
        let e = v[i];
        if e.0.0 == o && e.0.1 == p {
            proof {
                assert(v@[i as int].0 == (o, p));
                lemma_kv_lookup_at(v@, i as int, (o, p), false);
            }
            return e.1;
        }
        i = i + 1;
    }
    proof {
        assert(!kv_contains(v@, (o, p)));
        lemma_kv_absent(v@, (o, p), false);
    }
    false
}

/// Write to a pair-keyed store: replace the pair's entry or append one.
pub fn op_set(v: &mut Vec<((Address, Address), bool)>, o: Address, p: Address, val: bool)
    requires
        kv_distinct(old(v)@),
    ensures
        kv_distinct(final(v)@),
        forall|q: (Address, Address)| #[trigger] kv_lookup(final(v)@, q, false) == if q == (o, p) {
            val
        } else {
            kv_lookup(old(v)@, q, false)
        },
{
    let n = v.len();
    let mut i: usize = 0;
    while i < n
        invariant
            n == v@.len(),
            v@ == old(v)@,
            kv_distinct(v@),
            0 <= i <= n,
            forall|j: int| 0 <= j < i ==> (#[trigger] v@[j]).0 != (o, p),
        decreases n - i,
    {
        let e = v[i];
        if e.0.0 == o && e.0.1 == p {
            proof {
                assert(v@[i as int].0 == (o, p));
            }
            v.set(i, ((o, p), val));
            proof {
                let s0 = old(v)@;
                assert forall|j: int| 0 <= j < v@.len() implies (#[trigger] v@[j]).0 == s0[j].0 by {}
                assert(kv_distinct(v@));
                assert forall|q: (Address, Address)| #[trigger] kv_lookup(v@, q, false)
                    == if q == (o, p) { val } else { kv_lookup(s0, q, false) } by {
                    if q == (o, p) {
                        lemma_kv_lookup_at(v@, i as int, (o, p), false);
                    } else {
                        assert(v@ == s0.update(i as int, (s0[i as int].0, val)));
                        lemma_kv_lookup_update_val(s0, i as int, val, q, false);
                    }
                }
            }
            return;
        }
        i = i + 1;
    }
    proof {
        assert(!kv_contains(old(v)@, (o, p)));
    }
    v.push(((o, p), val));
    proof {
        let s0 = old(v)@;
        assert forall|x: int, y: int| 0 <= x < y < v@.len()
            implies (#[trigger] v@[x]).0 != (#[trigger] v@[y]).0 by {
            if y < s0.len() {
                assert(v@[x] == s0[x] && v@[y] == s0[y]);
            } else {
                assert(v@[x] == s0[x] && v@[y].0 == (o, p));
            }
        }
        assert forall|q: (Address, Address)| #[trigger] kv_lookup(v@, q, false)
            == if q == (o, p) { val } else { kv_lookup(s0, q, false) } by {
            lemma_kv_lookup_push(s0, ((o, p), val), q, false);
            if q != (o, p) && !kv_contains(s0, q) {
                lemma_kv_absent(s0, q, false);
            }
        }
    }
}

} // verus!
