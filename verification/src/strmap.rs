//! Small maps from text keys to optional text values, kept as lists of pairs.

use crate::data::Data;
use vstd::prelude::*;

verus! {

/// The mathematical value of a list of key/value pairs.
pub type StrMapView = Seq<(Seq<char>, Option<Seq<char>>)>;

/// The index, at or after `from`, of the first pair with key `k`; the length
/// of the list when there is none.
pub open spec fn key_position(m: StrMapView, k: Seq<char>, from: int) -> int
    decreases m.len() - from,
{
    if from < 0 || from >= m.len() {
        m.len() as int
    } else if m[from].0 == k {
        from
    } else {
        key_position(m, k, from + 1)
    }
}

/// What the first pair with key `k` binds it to, if there is such a pair.
pub open spec fn lookup(m: StrMapView, k: Seq<char>) -> Option<Option<Seq<char>>> {
    let p = key_position(m, k, 0);
    if p < m.len() {
        Some(m[p].1)
    } else {
        None
    }
}

/// The pairs of an optional list; none when the list is missing.
pub open spec fn entries(m: Option<StrMapView>) -> StrMapView {
    match m {
        Some(m) => m,
        None => Seq::empty(),
    }
}

/// `key_position` finds a pair with the key, or runs to the end.
pub proof fn lemma_key_position(m: StrMapView, k: Seq<char>, from: int)
    requires
        0 <= from <= m.len(),
    ensures
        from <= key_position(m, k, from) <= m.len(),
        key_position(m, k, from) < m.len() ==> m[key_position(m, k, from)].0 == k,
        forall|j: int| from <= j < key_position(m, k, from) ==> m[j].0 != k,
    decreases m.len() - from,
{
    if from < m.len() && m[from].0 != k {
        lemma_key_position(m, k, from + 1);
    }
}

/// Looks a key up: the value that its first pair holds.
pub fn strmap_get<'a>(m: &'a Vec<(String, Option<String>)>, k: &String) -> (r: Option<
    &'a Option<String>,
>)
    ensures
        r.deep_view() == lookup(m.deep_view(), k@),
{
    let mut i: usize = 0;
    while i < m.len()
        invariant
            i <= m.len(),
            key_position(m.deep_view(), k@, 0) == key_position(m.deep_view(), k@, i as int),
        decreases m.len() - i,
    {
        if m[i].0.same(k) {
            return Some(&m[i].1);
        }
        i += 1;
    }
    None
}

/// The list without its first pair with key `k`.
pub open spec fn without_key(m: StrMapView, k: Seq<char>) -> StrMapView {
    let p = key_position(m, k, 0);
    if p < m.len() {
        m.remove(p)
    } else {
        m
    }
}

/// Takes the first pair with key `k` out of the list and returns what it
/// bound the key to.
pub fn strmap_remove(m: &mut Vec<(String, Option<String>)>, k: &String) -> (r: Option<
    Option<String>,
>)
    ensures
        r.deep_view() == lookup(old(m).deep_view(), k@),
        final(m).deep_view() == without_key(old(m).deep_view(), k@),
        keys_unique(old(m).deep_view()) ==> keys_unique(final(m).deep_view()),
{
    proof {
        if keys_unique(m.deep_view()) {
            lemma_without_key_unique(m.deep_view(), k@);
        }
    }
    let mut i: usize = 0;
    while i < m.len()
        invariant
            i <= m.len(),
            m.deep_view() == old(m).deep_view(),
            keys_unique(old(m).deep_view()) ==> keys_unique(without_key(old(m).deep_view(), k@)),
            key_position(m.deep_view(), k@, 0) == key_position(m.deep_view(), k@, i as int),
        decreases m.len() - i,
    {
        if m[i].0.same(k) {
            let ghost before = m.deep_view();
            let pair = m.remove(i);
            assert(m.deep_view() =~= before.remove(i as int));
            return Some(pair.1);
        }
        i += 1;
    }
    None
}

/// The index, at or after `from`, of the first pair whose key an earlier
/// pair binds; the length of the list when there is none.
pub open spec fn first_repeated_key(m: StrMapView, from: int) -> int
    decreases m.len() - from,
{
    if from < 0 || from >= m.len() {
        m.len() as int
    } else if key_position(m, m[from].0, 0) != from {
        from
    } else {
        first_repeated_key(m, from + 1)
    }
}

/// Whether a list of pairs binds no key twice, as a map does. This is the
/// invariant of every list of pairs that stands for a map.
pub open spec fn keys_unique(m: StrMapView) -> bool {
    first_repeated_key(m, 0) >= m.len()
}

/// Where no pair at or after `from` repeats a key, each such pair is the
/// first with its key.
pub proof fn lemma_first_with_key(m: StrMapView, from: int, i: int)
    requires
        0 <= from <= i < m.len(),
        first_repeated_key(m, from) >= m.len(),
    ensures
        key_position(m, m[i].0, 0) == i,
    decreases i - from,
{
    if from < i {
        lemma_first_with_key(m, from + 1, i);
    }
}

/// Where every pair at or after `from` is the first with its key, no pair
/// at or after `from` repeats a key.
pub proof fn lemma_none_repeated(m: StrMapView, from: int)
    requires
        0 <= from <= m.len(),
        forall|i: int| from <= i < m.len() ==> key_position(m, (#[trigger] m[i]).0, 0) == i,
    ensures
        first_repeated_key(m, from) >= m.len(),
    decreases m.len() - from,
{
    if from < m.len() {
        lemma_none_repeated(m, from + 1);
    }
}

/// A list binds no key twice exactly when any two of its pairs have
/// different keys.
pub proof fn lemma_keys_unique(m: StrMapView)
    ensures
        keys_unique(m) <==> forall|i: int, j: int| 0 <= i < j < m.len() ==> m[i].0 != m[j].0,
{
    if keys_unique(m) {
        assert forall|i: int, j: int| 0 <= i < j < m.len() implies m[i].0 != m[j].0 by {
            lemma_first_with_key(m, 0, j);
            lemma_key_position(m, m[j].0, 0);
        }
    }
    if forall|i: int, j: int| 0 <= i < j < m.len() ==> m[i].0 != m[j].0 {
        assert forall|i: int| 0 <= i < m.len() implies key_position(m, (#[trigger] m[i]).0, 0)
            == i by {
            lemma_key_position(m, m[i].0, 0);
            let p = key_position(m, m[i].0, 0);
            if p < i {
                assert(m[p].0 != m[i].0);
            }
        }
        lemma_none_repeated(m, 0);
    }
}

/// Taking a pair out of a list that binds no key twice leaves such a list.
pub proof fn lemma_without_key_unique(m: StrMapView, k: Seq<char>)
    requires
        keys_unique(m),
    ensures
        keys_unique(without_key(m, k)),
{
    let p = key_position(m, k, 0);
    lemma_key_position(m, k, 0);
    lemma_keys_unique(m);
    if p < m.len() {
        let r = m.remove(p);
        assert forall|i: int, j: int| 0 <= i < j < r.len() implies r[i].0 != r[j].0 by {
            let a = if i < p {
                i
            } else {
                i + 1
            };
            let b = if j < p {
                j
            } else {
                j + 1
            };
            assert(r[i] == m[a] && r[j] == m[b]);
        }
        lemma_keys_unique(r);
    }
}

/// Finds the first pair whose key an earlier pair binds.
pub fn find_repeated_key(m: &Vec<(String, Option<String>)>) -> (p: usize)
    ensures
        p == first_repeated_key(m.deep_view(), 0),
        p <= m.len(),
{
    let mut i: usize = 0;
    while i < m.len()
        invariant
            i <= m.len(),
            first_repeated_key(m.deep_view(), 0) == first_repeated_key(m.deep_view(), i as int),
        decreases m.len() - i,
    {
        let mut j: usize = 0;
        while j < i && !m[j].0.same(&m[i].0)
            invariant
                j <= i < m.len(),
                key_position(m.deep_view(), m.deep_view()[i as int].0, 0) == key_position(
                    m.deep_view(),
                    m.deep_view()[i as int].0,
                    j as int,
                ),
            decreases i - j,
        {
            j += 1;
        }
        if j < i {
            return i;
        }
        i += 1;
    }
    i
}

} // verus!
