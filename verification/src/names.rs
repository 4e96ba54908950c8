//! Lists of names and of other entries.

use crate::data::Data;
use vstd::prelude::*;
use vstd::string::{StrSliceExecFns, StringExecFns};

verus! {

/// Whether `list` holds an entry with the value of `x`.
pub fn holds<T: Data>(list: &Vec<T>, x: &T) -> (b: bool)
    ensures
        b == list.deep_view().contains(x.deep_view()),
{
    let mut i: usize = 0;
    while i < list.len()
        invariant
            i <= list.len(),
            forall|j: int| 0 <= j < i ==> list.deep_view()[j] != x.deep_view(),
        decreases list.len() - i,
    {
        if list[i].same(x) {
            assert(list.deep_view()[i as int] == x.deep_view());
            return true;
        }
        i += 1;
    }
    false
}

/// The entries of `wanted` that `present` does not hold, in their order.
pub open spec fn missing<V>(wanted: Seq<V>, present: Seq<V>) -> Seq<V>
    decreases wanted.len(),
{
    if wanted.len() == 0 {
        Seq::empty()
    } else {
        let rest = missing(wanted.drop_last(), present);
        if present.contains(wanted.last()) {
            rest
        } else {
            rest.push(wanted.last())
        }
    }
}

/// Copies the entries of `wanted` that `present` does not hold.
pub fn missing_entries<T: Data>(wanted: &Vec<T>, present: &Vec<T>) -> (r: Vec<T>)
    ensures
        r.deep_view() == missing(wanted.deep_view(), present.deep_view()),
{
    let mut out: Vec<T> = Vec::new();
    let mut i: usize = 0;
    assert(wanted.deep_view().take(0) =~= Seq::empty());
    assert(out.deep_view() =~= Seq::empty());
    while i < wanted.len()
        invariant
            i <= wanted.len(),
            out.deep_view() == missing(wanted.deep_view().take(i as int), present.deep_view()),
        decreases wanted.len() - i,
    {
        let ghost before = out.deep_view();
        assert(wanted.deep_view().take(i + 1).drop_last() =~= wanted.deep_view().take(i as int));
        assert(wanted.deep_view().take(i + 1).last() == wanted[i as int].deep_view());
        if !holds(present, &wanted[i]) {
            out.push(wanted[i].dup());
            assert(out.deep_view() =~= before.push(wanted[i as int].deep_view()));
        }
        i += 1;
    }
    assert(wanted.deep_view().take(wanted.len() as int) =~= wanted.deep_view());
    out
}

/// The names of a list, one after the other with `sep` between them.
pub open spec fn joined(names: Seq<Seq<char>>, sep: Seq<char>) -> Seq<char>
    decreases names.len(),
{
    if names.len() == 0 {
        Seq::empty()
    } else if names.len() == 1 {
        names[0]
    } else {
        joined(names.drop_last(), sep) + sep + names.last()
    }
}

/// Writes the names of a list one after the other with `sep` between them.
pub fn join_names(names: &Vec<String>, sep: &str) -> (r: String)
    ensures
        r@ == joined(names.deep_view(), sep@),
{
    let mut out = String::new();
    let mut i: usize = 0;
    assert(names.deep_view().take(0) =~= Seq::empty());
    while i < names.len()
        invariant
            i <= names.len(),
            out@ == joined(names.deep_view().take(i as int), sep@),
        decreases names.len() - i,
    {
        assert(names.deep_view().take(i + 1).drop_last() =~= names.deep_view().take(i as int));
        assert(names.deep_view().take(i + 1).last() == names[i as int]@);
        if i > 0 {
            out.append(sep);
        }
        out.append(names[i].as_str());
        assert(out@ =~= joined(names.deep_view().take(i + 1), sep@));
        i += 1;
    }
    assert(names.deep_view().take(names.len() as int) =~= names.deep_view());
    out
}

/// The names among `from` that `among` holds and `except` does not, in the
/// order of `from`.
pub open spec fn names_among_except(
    from: Seq<Seq<char>>,
    among: Seq<Seq<char>>,
    except: Seq<Seq<char>>,
) -> Seq<Seq<char>>
    decreases from.len(),
{
    if from.len() == 0 {
        Seq::empty()
    } else {
        let rest = names_among_except(from.drop_last(), among, except);
        if among.contains(from.last()) && !except.contains(from.last()) {
            rest.push(from.last())
        } else {
            rest
        }
    }
}

/// Picks from `from` the names that `among` holds and `except` does not.
pub fn pick_names_among_except(from: &Vec<String>, among: &Vec<String>, except: &Vec<String>) -> (r:
    Vec<String>)
    ensures
        r.deep_view() == names_among_except(
            from.deep_view(),
            among.deep_view(),
            except.deep_view(),
        ),
{
    let mut out: Vec<String> = Vec::new();
    let mut i: usize = 0;
    assert(from.deep_view().take(0) =~= Seq::empty());
    assert(out.deep_view() =~= Seq::empty());
    while i < from.len()
        invariant
            i <= from.len(),
            out.deep_view() == names_among_except(
                from.deep_view().take(i as int),
                among.deep_view(),
                except.deep_view(),
            ),
        decreases from.len() - i,
    {
        let ghost before = out.deep_view();
        assert(from.deep_view().take(i + 1).drop_last() =~= from.deep_view().take(i as int));
        assert(from.deep_view().take(i + 1).last() == from[i as int]@);
        if holds(among, &from[i]) && !holds(except, &from[i]) {
            out.push(from[i].dup());
            assert(out.deep_view() =~= before.push(from[i as int]@));
        }
        i += 1;
    }
    assert(from.deep_view().take(from.len() as int) =~= from.deep_view());
    out
}

/// Whether `a` stands before `b`, or is `b`, in the order of dictionaries,
/// with characters in the order of their code points, when the two agree
/// before index `from`.
pub open spec fn name_le_from(a: Seq<char>, b: Seq<char>, from: int) -> bool
    decreases a.len() - from,
{
    if from < 0 || from >= a.len() {
        true
    } else if from >= b.len() {
        false
    } else if a[from] != b[from] {
        (a[from] as u32) < (b[from] as u32)
    } else {
        name_le_from(a, b, from + 1)
    }
}

/// Whether `a` stands before `b`, or is `b`, in the order of dictionaries.
/// This is the order in which the standard library compares strings.
pub open spec fn name_le(a: Seq<char>, b: Seq<char>) -> bool {
    name_le_from(a, b, 0)
}

/// Whether `a` stands before `b`, or is `b`, in the order of dictionaries.
pub fn is_name_le(a: &str, b: &str) -> (r: bool)
    ensures
        r == name_le(a@, b@),
{
    let a_len = a.unicode_len();
    let b_len = b.unicode_len();
    let mut i: usize = 0;
    while i < a_len
        invariant
            i <= a_len,
            a_len == a@.len(),
            b_len == b@.len(),
            name_le(a@, b@) == name_le_from(a@, b@, i as int),
        decreases a_len - i,
    {
        if i >= b_len {
            return false;
        }
        let ca = a.get_char(i);
        let cb = b.get_char(i);
        if ca != cb {
            return (ca as u32) < (cb as u32);
        }
        i += 1;
    }
    true
}

} // verus!
