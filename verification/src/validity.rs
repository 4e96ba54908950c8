//! Validity is kept: merging valid interfaces into valid interfaces gives
//! valid interfaces. The interfaces of a state stand for a map from names
//! to interfaces, and merging treats them as one.

use crate::ifaces::{
    first_duplicate, first_mistyped, iface_position, lemma_iface_position, lemma_well_typed,
    merged_all, merged_one, InterfaceView, InterfacesView,
};
use crate::round_trip::{
    key_of, lemma_goes_by_key, lemma_no_duplicate_positions, lemma_position_by_keys,
    lemma_position_push, lemma_updated_key,
};
use vstd::prelude::*;

verus! {

/// Where every interface at or after `from` is the first to go by its
/// name, none at or after `from` is named twice.
pub proof fn lemma_none_duplicate(l: Seq<InterfaceView>, from: int)
    requires
        0 <= from <= l.len(),
        forall|j: int|
            from <= j < l.len() ==> iface_position(
                l,
                (#[trigger] l[j]).base().name,
                l[j].base().iface_type,
                0,
            ) == j,
    ensures
        first_duplicate(l, from) >= l.len(),
    decreases l.len() - from,
{
    if from < l.len() {
        lemma_none_duplicate(l, from + 1);
    }
}

/// Where every interface at or after `from` is well typed, none at or
/// after `from` is mistyped.
pub proof fn lemma_none_mistyped(l: Seq<InterfaceView>, from: int)
    requires
        0 <= from <= l.len(),
        forall|j: int| from <= j < l.len() ==> (#[trigger] l[j]).well_typed(),
    ensures
        first_mistyped(l, from) >= l.len(),
    decreases l.len() - from,
{
    if from < l.len() {
        lemma_none_mistyped(l, from + 1);
    }
}

/// Merging a well typed interface into another gives a well typed
/// interface.
pub proof fn lemma_updated_well_typed(y: InterfaceView, o: InterfaceView)
    requires
        y.well_typed(),
        o.well_typed(),
    ensures
        y.updated(o).well_typed(),
{
}

/// Merging one valid interface into valid interfaces gives valid
/// interfaces.
#[verifier::rlimit(50)]
pub proof fn lemma_merged_one_valid(l: Seq<InterfaceView>, o: InterfaceView)
    requires
        (InterfacesView { ifaces: l }).wf(),
        o.well_typed(),
    ensures
        (InterfacesView { ifaces: merged_one(l, o) }).wf(),
{
    let on = o.base().name;
    let ot = o.base().iface_type;
    let p = iface_position(l, on, ot, 0);
    lemma_iface_position(l, on, ot, 0);
    lemma_goes_by_key(o, on, ot);
    let l2 = merged_one(l, o);
    assert forall|j: int| 0 <= j < l.len() implies (#[trigger] l[j]).well_typed() by {
        lemma_well_typed(l, 0, j);
    }
    if p < l.len() {
        lemma_goes_by_key(l[p], on, ot);
        lemma_updated_key(l[p], o);
        lemma_updated_well_typed(l[p], o);
        assert forall|i: int| 0 <= i < l.len() implies key_of(#[trigger] l[i]) == key_of(
            l2[i],
        ) by {}
        assert forall|j: int| 0 <= j < l2.len() implies iface_position(
            l2,
            (#[trigger] l2[j]).base().name,
            l2[j].base().iface_type,
            0,
        ) == j by {
            let n = l2[j].base().name;
            let t = l2[j].base().iface_type;
            lemma_no_duplicate_positions(l, 0, j);
            lemma_position_by_keys(l, l2, n, t, 0);
            crate::round_trip::lemma_position_same_key(
                l,
                n,
                t,
                l[j].base().name,
                l[j].base().iface_type,
                0,
            );
        }
        assert forall|j: int| 0 <= j < l2.len() implies (#[trigger] l2[j]).well_typed() by {
            if j != p {
                assert(l2[j] == l[j]);
            }
        }
    } else {
        assert forall|j: int| 0 <= j < l2.len() implies iface_position(
            l2,
            (#[trigger] l2[j]).base().name,
            l2[j].base().iface_type,
            0,
        ) == j by {
            let n = l2[j].base().name;
            let t = l2[j].base().iface_type;
            lemma_position_push(l, o, n, t, 0);
            if j < l.len() {
                assert(l2[j] == l[j]);
                lemma_no_duplicate_positions(l, 0, j);
            } else {
                assert(l2[j] == o);
            }
        }
        assert forall|j: int| 0 <= j < l2.len() implies (#[trigger] l2[j]).well_typed() by {
            if j < l.len() {
                assert(l2[j] == l[j]);
            }
        }
    }
    lemma_none_duplicate(l2, 0);
    lemma_none_mistyped(l2, 0);
}

/// Merging valid interfaces into valid interfaces gives valid interfaces.
pub proof fn lemma_merged_all_valid(l: Seq<InterfaceView>, others: Seq<InterfaceView>)
    requires
        (InterfacesView { ifaces: l }).wf(),
        forall|i: int| 0 <= i < others.len() ==> (#[trigger] others[i]).well_typed(),
    ensures
        (InterfacesView { ifaces: merged_all(l, others) }).wf(),
    decreases others.len(),
{
    if others.len() > 0 {
        let front = others.drop_last();
        assert forall|i: int| 0 <= i < front.len() implies (#[trigger] front[i]).well_typed() by {
            assert(front[i] == others[i]);
        }
        lemma_merged_all_valid(l, front);
        assert(others.last() == others[others.len() - 1]);
        lemma_merged_one_valid(merged_all(l, front), others.last());
    }
}

/// Valid interfaces stay valid when valid interfaces are merged into them.
pub proof fn lemma_updated_valid(mine: InterfacesView, other: InterfacesView)
    requires
        mine.wf(),
        other.wf(),
    ensures
        mine.updated(other).wf(),
{
    assert forall|i: int| 0 <= i < other.ifaces.len() implies (
    #[trigger] other.ifaces[i]).well_typed() by {
        lemma_well_typed(other.ifaces, 0, i);
    }
    assert(mine == InterfacesView { ifaces: mine.ifaces });
    lemma_merged_all_valid(mine.ifaces, other.ifaces);
}

} // verus!
