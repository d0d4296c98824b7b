//! Index selection and stable ordering used by the list screens.

use vstd::prelude::*;
use crate::text::{chars_lt, lemma_lex_lt_irreflexive, lemma_lex_lt_total, lemma_lex_lt_transitive, lex_lt};

verus! {

broadcast use vstd::seq_lib::group_seq_properties;

pub open spec fn strictly_increasing(s: Seq<usize>) -> bool {
    forall|a: int, b: int| 0 <= a < b < s.len() ==> #[trigger] s[a] < #[trigger] s[b]
}

pub open spec fn no_duplicates(s: Seq<usize>) -> bool {
    forall|a: int, b: int| 0 <= a < b < s.len() ==> #[trigger] s[a] != #[trigger] s[b]
}

/// `x` sorts before `y` when ordering by `keys` ascending, ties kept in index order.
pub open spec fn name_before(keys: Seq<Seq<char>>, x: usize, y: usize) -> bool {
    lex_lt(keys[x as int], keys[y as int]) || (keys[x as int] == keys[y as int] && x < y)
}

pub open spec fn ordered_by_name(keys: Seq<Seq<char>>, s: Seq<usize>) -> bool {
    forall|a: int, b: int|
        0 <= a < b < s.len() ==> name_before(keys, #[trigger] s[a], #[trigger] s[b])
}

/// Key `a` strictly precedes key `b`: it is larger when ordering descending,
/// smaller when ordering ascending.
pub open spec fn key_precedes(descending: bool, a: i64, b: i64) -> bool {
    if descending {
        a > b
    } else {
        a < b
    }
}

/// `x` sorts before `y` when ordering by `keys` (descending or ascending),
/// ties kept in index order.
pub open spec fn key_before(keys: Seq<i64>, descending: bool, x: usize, y: usize) -> bool {
    key_precedes(descending, keys[x as int], keys[y as int]) || (keys[x as int] == keys[y as int]
        && x < y)
}

pub open spec fn ordered_by_key(keys: Seq<i64>, descending: bool, s: Seq<usize>) -> bool {
    forall|a: int, b: int|
        0 <= a < b < s.len() ==> key_before(keys, descending, #[trigger] s[a], #[trigger] s[b])
}

/// `x` sorts before `y` when ordering by `keys` descending, ties kept in index order.
pub open spec fn desc_before(keys: Seq<i64>, x: usize, y: usize) -> bool {
    key_before(keys, true, x, y)
}

pub open spec fn ordered_desc(keys: Seq<i64>, s: Seq<usize>) -> bool {
    ordered_by_key(keys, true, s)
}

/// `x` sorts before `y` when ordering by `keys` ascending, ties kept in index order.
pub open spec fn asc_before(keys: Seq<i64>, x: usize, y: usize) -> bool {
    key_before(keys, false, x, y)
}

pub open spec fn ordered_asc(keys: Seq<i64>, s: Seq<usize>) -> bool {
    ordered_by_key(keys, false, s)
}

/// The positions of `flags` that are set, in increasing order.
pub fn collect_flags(flags: &Vec<bool>) -> (picked: Vec<usize>)
    ensures
        strictly_increasing(picked@),
        forall|x: usize| #[trigger]
            picked@.contains(x) <==> (x < flags@.len() && flags@[x as int]),
{
    let mut picked: Vec<usize> = Vec::new();
    let mut i: usize = 0;
    while i < flags.len()
        invariant
            i <= flags@.len(),
            strictly_increasing(picked@),
            forall|a: int| 0 <= a < picked@.len() ==> #[trigger] picked@[a] < i,
            forall|x: usize| #[trigger]
                picked@.contains(x) <==> (x < i && flags@[x as int]),
        decreases flags@.len() - i,
    {
        if flags[i] {
            let ghost before = picked@;
            picked.push(i);
            assert forall|x: usize| #[trigger] picked@.contains(x) <==> (x < i + 1 && flags@[x as int]) by {
                if x == i {
                    assert(picked@[before.len() as int] == x);
                }
                if picked@.contains(x) && x != i {
                    let k = choose|k: int| 0 <= k < picked@.len() && picked@[k] == x;
                    assert(k < before.len());
                    assert(before[k] == x);
                }
                if x < i && flags@[x as int] {
                    let k = choose|k: int| 0 <= k < before.len() && before[k] == x;
                    assert(picked@[k] == x);
                }
            }
        } else {
            assert forall|x: usize| #[trigger] picked@.contains(x) <==> (x < i + 1 && flags@[x as int]) by {
                if picked@.contains(x) {
                    let k = choose|k: int| 0 <= k < picked@.len() && picked@[k] == x;
                    assert(picked@[k] < i);
                }
            }
        }
        i = i + 1;
    }
    picked
}

proof fn lemma_name_before_after_gap(keys: Seq<Seq<char>>, x: usize, y: usize, z: usize)
    requires
        lex_lt(keys[x as int], keys[y as int]),
        y == z || name_before(keys, y, z),
    ensures
        lex_lt(keys[x as int], keys[z as int]),
{
    if y != z {
        if lex_lt(keys[y as int], keys[z as int]) {
            lemma_lex_lt_transitive(keys[x as int], keys[y as int], keys[z as int]);
        }
    }
}

/// The character sequences of `keys`.
pub open spec fn key_views(keys: Seq<Vec<char>>) -> Seq<Seq<char>> {
    Seq::new(keys.len(), |i: int| keys[i]@)
}

/// Inserting `x` into a sequence adds exactly `x` to its members.
pub proof fn lemma_insert_members(s: Seq<usize>, p: int, x: usize)
    requires
        0 <= p <= s.len(),
    ensures
        forall|y: usize| #[trigger] s.insert(p, x).contains(y) <==> (s.contains(y) || y == x),
{
    s.insert_ensures(p, x);
    let t = s.insert(p, x);
    assert forall|y: usize| #[trigger] t.contains(y) <==> (s.contains(y) || y == x) by {
        if t.contains(y) {
            let a = choose|a: int| 0 <= a < t.len() && t[a] == y;
            if a < p {
                assert(s[a] == y);
            } else if a > p {
                assert(s[a - 1] == y);
            }
        }
        if y == x {
            assert(t[p] == y);
        } else if s.contains(y) {
            let a = choose|a: int| 0 <= a < s.len() && s[a] == y;
            if a < p {
                assert(t[a] == y);
            } else {
                assert(t[a + 1] == y);
            }
        }
    }
}

proof fn lemma_insert_keeps_name_order(kv: Seq<Seq<char>>, s: Seq<usize>, p: int, x: usize)
    requires
        0 <= p <= s.len(),
        x < kv.len(),
        forall|a: int| 0 <= a < s.len() ==> #[trigger] s[a] < x,
        ordered_by_name(kv, s),
        forall|q: int| 0 <= q < p ==> !lex_lt(kv[x as int], #[trigger] kv[s[q] as int]),
        p == s.len() || lex_lt(kv[x as int], kv[s[p] as int]),
    ensures
        ordered_by_name(kv, s.insert(p, x)),
{
    s.insert_ensures(p, x);
    let t = s.insert(p, x);
    assert forall|a: int, b: int| 0 <= a < b < t.len() implies name_before(kv, #[trigger] t[a], #[trigger] t[b]) by {
        if b < p {
        } else if a > p {
            assert(t[a] == s[a - 1]);
            assert(t[b] == s[b - 1]);
        } else if a < p && b == p {
            lemma_lex_lt_total(kv[x as int], kv[s[a] as int]);
        } else if a < p && b > p {
            assert(t[b] == s[b - 1]);
        } else {
            assert(t[b] == s[b - 1]);
            lemma_name_before_after_gap(kv, x, s[p], s[b - 1]);
        }
    }
}

/// Orders `items` by their `keys` ascending; items with equal keys keep their
/// relative order (a stable sort, as `sort_by` performs).
pub fn sort_by_names(keys: &Vec<Vec<char>>, items: &Vec<usize>) -> (sorted: Vec<usize>)
    requires
        strictly_increasing(items@),
        forall|j: int| 0 <= j < items@.len() ==> #[trigger] items@[j] < keys@.len(),
    ensures
        sorted@.len() == items@.len(),
        no_duplicates(sorted@),
        forall|x: usize| #[trigger] sorted@.contains(x) <==> items@.contains(x),
        ordered_by_name(key_views(keys@), sorted@),
{
    let ghost kv = key_views(keys@);
    let mut sorted: Vec<usize> = Vec::new();
    let mut j: usize = 0;
    while j < items.len()
        invariant
            kv == key_views(keys@),
            strictly_increasing(items@),
            forall|k: int| 0 <= k < items@.len() ==> #[trigger] items@[k] < keys@.len(),
            j <= items@.len(),
            sorted@.len() == j,
            forall|a: int| 0 <= a < sorted@.len() ==> #[trigger] sorted@[a] < keys@.len(),
            forall|a: int|
                0 <= a < sorted@.len() ==> exists|k: int|
                    0 <= k < j && #[trigger] items@[k] == #[trigger] sorted@[a],
            forall|y: usize| #[trigger]
                sorted@.contains(y) <==> items@.subrange(0, j as int).contains(y),
            ordered_by_name(kv, sorted@),
        decreases items@.len() - j,
    {
        let x = items[j];
        let mut p: usize = 0;
        while p < sorted.len() && !chars_lt(&keys[x], &keys[sorted[p]])
            invariant
                kv == key_views(keys@),
                x < keys@.len(),
                p <= sorted@.len(),
                forall|a: int| 0 <= a < sorted@.len() ==> #[trigger] sorted@[a] < keys@.len(),
                forall|q: int| 0 <= q < p ==> !lex_lt(kv[x as int], #[trigger] kv[sorted@[q] as int]),
            decreases sorted@.len() - p,
        {
            p = p + 1;
        }
        let ghost old_sorted = sorted@;
        proof {
            assert forall|a: int| 0 <= a < old_sorted.len() implies #[trigger] old_sorted[a] < x by {
                let k = choose|k: int| 0 <= k < j && #[trigger] items@[k] == old_sorted[a];
            }
            lemma_insert_keeps_name_order(kv, old_sorted, p as int, x);
            lemma_insert_members(old_sorted, p as int, x);
            old_sorted.insert_ensures(p as int, x);
        }
        sorted.insert(p, x);
        proof {
            assert(sorted@ == old_sorted.insert(p as int, x));
            assert forall|a: int|
                0 <= a < sorted@.len() implies exists|k: int|
                    0 <= k < j + 1 && #[trigger] items@[k] == #[trigger] sorted@[a] by {
                if a < p {
                } else if a == p {
                    assert(items@[j as int] == sorted@[a]);
                } else {
                    assert(sorted@[a] == old_sorted[a - 1]);
                }
            }
            assert forall|a: int| 0 <= a < sorted@.len() implies #[trigger] sorted@[a] < keys@.len() by {
                if a > p {
                    assert(sorted@[a] == old_sorted[a - 1]);
                }
            }
            assert(items@.subrange(0, j + 1) =~= items@.subrange(0, j as int).push(x));
        }
        j = j + 1;
    }
    proof {
        assert(items@.subrange(0, j as int) =~= items@);
        assert forall|a: int, b: int| 0 <= a < b < sorted@.len() implies #[trigger] sorted@[a]
            != #[trigger] sorted@[b] by {
            if sorted@[a] == sorted@[b] {
                assert(name_before(kv, sorted@[a], sorted@[b]));
                lemma_lex_lt_irreflexive(kv[sorted@[a] as int]);
            }
        }
    }
    sorted
}

fn precedes(descending: bool, a: i64, b: i64) -> (p: bool)
    ensures
        p == key_precedes(descending, a, b),
{
    if descending {
        a > b
    } else {
        a < b
    }
}

/// All positions `0..keys.len()` ordered by `keys`, descending or ascending;
/// positions with equal keys keep their relative order (a stable sort).
fn sort_positions(keys: &Vec<i64>, descending: bool) -> (sorted: Vec<usize>)
    ensures
        sorted@.len() == keys@.len(),
        no_duplicates(sorted@),
        forall|x: usize| #[trigger] sorted@.contains(x) <==> x < keys@.len(),
        ordered_by_key(keys@, descending, sorted@),
{
    let mut sorted: Vec<usize> = Vec::new();
    let mut j: usize = 0;
    while j < keys.len()
        invariant
            j <= keys@.len(),
            sorted@.len() == j,
            forall|a: int| 0 <= a < sorted@.len() ==> #[trigger] sorted@[a] < j,
            forall|x: usize| #[trigger] sorted@.contains(x) <==> x < j,
            ordered_by_key(keys@, descending, sorted@),
        decreases keys@.len() - j,
    {
        let mut p: usize = 0;
        while p < sorted.len() && !precedes(descending, keys[j], keys[sorted[p]])
            invariant
                j < keys@.len(),
                p <= sorted@.len(),
                forall|a: int| 0 <= a < sorted@.len() ==> #[trigger] sorted@[a] < j,
                descending == descending,
                forall|q: int| 0 <= q < p ==> !key_precedes(descending, keys@[j as int], keys@[#[trigger] sorted@[q] as int]),
            decreases sorted@.len() - p,
        {
            p = p + 1;
        }
        let ghost old_sorted = sorted@;
        sorted.insert(p, j);
        proof {
            old_sorted.insert_ensures(p as int, j);
            assert(sorted@ == old_sorted.insert(p as int, j));
            assert forall|a: int, b: int|
                0 <= a < b < sorted@.len() implies key_before(keys@, descending, #[trigger] sorted@[a], #[trigger] sorted@[b]) by {
                if b < p {
                } else if a > p {
                    assert(sorted@[a] == old_sorted[a - 1]);
                    assert(sorted@[b] == old_sorted[b - 1]);
                } else if a < p && b == p {
                } else if a < p && b > p {
                    assert(sorted@[b] == old_sorted[b - 1]);
                } else {
                    assert(sorted@[b] == old_sorted[b - 1]);
                    if b - 1 > p {
                        assert(key_before(keys@, descending, old_sorted[p as int], old_sorted[b - 1]));
                    }
                }
            }
            assert forall|a: int| 0 <= a < sorted@.len() implies #[trigger] sorted@[a] < j + 1 by {
                if a > p {
                    assert(sorted@[a] == old_sorted[a - 1]);
                }
            }
            assert forall|y: usize| #[trigger] sorted@.contains(y) <==> y < j + 1 by {
                if sorted@.contains(y) {
                    let a = choose|a: int| 0 <= a < sorted@.len() && sorted@[a] == y;
                }
                if y < j + 1 {
                    if y == j {
                        assert(sorted@[p as int] == y);
                    } else {
                        assert(old_sorted.contains(y));
                        let a = choose|a: int| 0 <= a < old_sorted.len() && old_sorted[a] == y;
                        if a < p {
                            assert(sorted@[a] == y);
                        } else {
                            assert(sorted@[a + 1] == y);
                        }
                    }
                }
            }
        }
        j = j + 1;
    }
    proof {
        assert forall|a: int, b: int| 0 <= a < b < sorted@.len() implies #[trigger] sorted@[a]
            != #[trigger] sorted@[b] by {
            assert(key_before(keys@, descending, sorted@[a], sorted@[b]));
        }
    }
    sorted
}


/// Every position of `keys`, ordered by key descending, ties in index order.
pub fn sort_positions_desc(keys: &Vec<i64>) -> (sorted: Vec<usize>)
    ensures
        sorted@.len() == keys@.len(),
        no_duplicates(sorted@),
        forall|x: usize| #[trigger] sorted@.contains(x) <==> x < keys@.len(),
        ordered_desc(keys@, sorted@),
{
    sort_positions(keys, true)
}

/// Every position of `keys`, ordered by key ascending, ties in index order.
pub fn sort_positions_asc(keys: &Vec<i64>) -> (sorted: Vec<usize>)
    ensures
        sorted@.len() == keys@.len(),
        no_duplicates(sorted@),
        forall|x: usize| #[trigger] sorted@.contains(x) <==> x < keys@.len(),
        ordered_asc(keys@, sorted@),
{
    sort_positions(keys, false)
}

} // verus!
