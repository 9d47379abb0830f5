//! Ordering texts: the lexicographic order of character sequences (the
//! order of `String`'s `Ord`), and a stable sort by text keys.
use vstd::prelude::*;

verus! {

/// `a` comes no later than `b` in lexicographic order of characters.
pub open spec fn lex_le(a: Seq<char>, b: Seq<char>) -> bool
    decreases a.len(),
{
    if a.len() == 0 {
        true
    } else if b.len() == 0 {
        false
    } else if a[0] < b[0] {
        true
    } else if a[0] > b[0] {
        false
    } else {
        lex_le(a.drop_first(), b.drop_first())
    }
}

/// `a` comes strictly before `b`.
pub open spec fn lex_lt(a: Seq<char>, b: Seq<char>) -> bool {
    lex_le(a, b) && a != b
}

/// The lexicographic order is total.
pub proof fn lemma_lex_total(a: Seq<char>, b: Seq<char>)
    ensures
        lex_le(a, b) || lex_le(b, a),
    decreases a.len(),
{
    if a.len() > 0 && b.len() > 0 && a[0] == b[0] {
        lemma_lex_total(a.drop_first(), b.drop_first());
    }
}

/// The lexicographic order is reflexive.
pub proof fn lemma_lex_refl(a: Seq<char>)
    ensures
        lex_le(a, a),
    decreases a.len(),
{
    if a.len() > 0 {
        lemma_lex_refl(a.drop_first());
    }
}

/// The lexicographic order is antisymmetric.
pub proof fn lemma_lex_antisym(a: Seq<char>, b: Seq<char>)
    requires
        lex_le(a, b),
        lex_le(b, a),
    ensures
        a == b,
    decreases a.len(),
{
    if a.len() > 0 {
        lemma_lex_antisym(a.drop_first(), b.drop_first());
        assert(a =~= seq![a[0]] + a.drop_first());
        assert(b =~= seq![b[0]] + b.drop_first());
    } else {
        assert(b.len() == 0 || lex_le(b, a));
        if b.len() > 0 {
            assert(!lex_le(b, a));
        }
        assert(a =~= b);
    }
}

/// The lexicographic order is transitive.
pub proof fn lemma_lex_trans(a: Seq<char>, b: Seq<char>, c: Seq<char>)
    requires
        lex_le(a, b),
        lex_le(b, c),
    ensures
        lex_le(a, c),
    decreases a.len(),
{
    if a.len() > 0 && b.len() > 0 && c.len() > 0 && a[0] == b[0] && b[0] == c[0] {
        lemma_lex_trans(a.drop_first(), b.drop_first(), c.drop_first());
    }
}

/// Whether `a` comes no later than `b`.
pub fn lex_le_exec(a: &[char], b: &[char]) -> (res: bool)
    ensures
        res == lex_le(a@, b@),
{
    let mut i: usize = 0;
    proof {
        assert(a@.subrange(0, a@.len() as int) =~= a@);
        assert(b@.subrange(0, b@.len() as int) =~= b@);
    }
    while i < a.len() && i < b.len()
        invariant
            i <= a.len(),
            i <= b.len(),
            lex_le(a@, b@) == lex_le(a@.subrange(i as int, a@.len() as int), b@.subrange(i as int, b@.len() as int)),
        decreases a.len() - i,
    {
        let ghost sa = a@.subrange(i as int, a@.len() as int);
        let ghost sb = b@.subrange(i as int, b@.len() as int);
        assert(sa[0] == a@[i as int]);
        assert(sb[0] == b@[i as int]);
        if a[i] < b[i] {
            return true;
        }
        if a[i] > b[i] {
            return false;
        }
        proof {
            assert(sa.drop_first() =~= a@.subrange(i + 1, a@.len() as int));
            assert(sb.drop_first() =~= b@.subrange(i + 1, b@.len() as int));
        }
        i = i + 1;
    }
    i == a.len()
}

/// In the order of keys `k`, position `x` goes before position `y`: its
/// key is smaller, or the keys are equal and it came first.
pub open spec fn goes_before(k: Seq<Seq<char>>, x: int, y: int) -> bool {
    lex_lt(k[x], k[y]) || (k[x] == k[y] && x < y)
}

/// `r` lists each of the positions `0..n` once.
pub open spec fn is_permutation(r: Seq<usize>, n: nat) -> bool {
    &&& r.len() == n
    &&& forall|i: int| 0 <= i < r.len() ==> r[i] < n
    &&& forall|i: int, j: int| 0 <= i < j < r.len() ==> r[i] != r[j]
    &&& forall|m: int| 0 <= m < n ==> #[trigger] lists(r, m)
}

/// Position `m` occurs in `r`.
pub open spec fn lists(r: Seq<usize>, m: int) -> bool {
    exists|j: int| 0 <= j < r.len() && r[j] as int == m
}

/// `r` lists positions in increasing key order, ties in their first order.
pub open spec fn sorted_by_keys(k: Seq<Seq<char>>, r: Seq<usize>) -> bool {
    forall|i: int, j: int| 0 <= i < j < r.len() ==> goes_before(k, r[i] as int, r[j] as int)
}

/// The positions of `keys`, ordered by key as a stable sort orders them.
pub fn stable_order(keys: &Vec<Vec<char>>) -> (res: Vec<usize>)
    ensures
        is_permutation(res@, keys@.len()),
        sorted_by_keys(keys@.map_values(|v: Vec<char>| v@), res@),
{
    let ghost k = keys@.map_values(|v: Vec<char>| v@);
    let mut r: Vec<usize> = Vec::new();
    let mut n: usize = 0;
    while n < keys.len()
        invariant
            n <= keys.len(),
            k == keys@.map_values(|v: Vec<char>| v@),
            is_permutation(r@, n as nat),
            sorted_by_keys(k, r@),
        decreases keys.len() - n,
    {
        // Find the first listed position whose key is strictly greater.
        let mut p: usize = 0;
        while p < r.len() && lex_le_exec(keys[r[p]].as_slice(), keys[n].as_slice())
            invariant
                p <= r.len(),
                n < keys.len(),
                k == keys@.map_values(|v: Vec<char>| v@),
                is_permutation(r@, n as nat),
                sorted_by_keys(k, r@),
                forall|i: int| 0 <= i < p ==> lex_le(k[r@[i] as int], k[n as int]),
            decreases r.len() - p,
        {
            p = p + 1;
        }
        proof {
            assert forall|i: int| 0 <= i < p implies goes_before(k, r@[i] as int, n as int) by {
                assert(lex_le(k[r@[i] as int], k[n as int]));
                assert((r@[i] as int) < n);
            }
            if p < r.len() {
                assert(!lex_le(k[r@[p as int] as int], k[n as int]));
                lemma_lex_total(k[r@[p as int] as int], k[n as int]);
                assert(lex_lt(k[n as int], k[r@[p as int] as int]));
                assert forall|j: int| p <= j < r.len() implies goes_before(k, n as int, r@[j] as int) by {
                    if j > p {
                        assert(goes_before(k, r@[p as int] as int, r@[j] as int));
                        let a = k[n as int];
                        let b = k[r@[p as int] as int];
                        let c = k[r@[j] as int];
                        lemma_lex_refl(b);
                        lemma_lex_trans(a, b, c);
                        if a == c {
                            lemma_lex_antisym(a, b);
                        }
                    }
                }
            }
        }
        let ghost old_r = r@;
        r.insert(p, n);
        proof {
            assert(r@ =~= old_r.insert(p as int, n));
            assert forall|i: int, j: int| 0 <= i < j < r@.len() implies goes_before(k, r@[i] as int, r@[j] as int) by {
                if j < p {
                    assert(r@[i] == old_r[i] && r@[j] == old_r[j]);
                } else if j == p {
                    assert(r@[i] == old_r[i]);
                } else if i < p {
                    assert(r@[i] == old_r[i] && r@[j] == old_r[j - 1]);
                } else if i == p {
                    assert(r@[j] == old_r[j - 1]);
                } else {
                    assert(r@[i] == old_r[i - 1] && r@[j] == old_r[j - 1]);
                }
            }
            assert forall|i: int, j: int| 0 <= i < j < r@.len() implies r@[i] != r@[j] by {
                if j < p {
                    assert(r@[i] == old_r[i] && r@[j] == old_r[j]);
                } else if j == p {
                    assert(r@[i] == old_r[i]);
                } else if i < p {
                    assert(r@[i] == old_r[i] && r@[j] == old_r[j - 1]);
                } else if i == p {
                    assert(r@[j] == old_r[j - 1]);
                } else {
                    assert(r@[i] == old_r[i - 1] && r@[j] == old_r[j - 1]);
                }
            }
            assert forall|m: int| 0 <= m < n + 1 implies #[trigger] lists(r@, m) by {
                if m == n {
                    assert(r@[p as int] == n);
                } else {
                    assert(lists(old_r, m));
                    let j = choose|j: int| 0 <= j < old_r.len() && old_r[j] as int == m;
                    if j < p {
                        assert(r@[j] == old_r[j]);
                    } else {
                        assert(r@[j + 1] == old_r[j]);
                    }
                }
            }
            assert forall|i: int| 0 <= i < r@.len() implies r@[i] < n + 1 by {
                if i < p {
                    assert(r@[i] == old_r[i]);
                } else if i > p {
                    assert(r@[i] == old_r[i - 1]);
                }
            }
        }
        n = n + 1;
    }
    r
}

} // verus!
