//! Applying a difference: the state that is reached by merging the
//! difference between a desired state and a current state into the current
//! state meets the desired state.

use crate::dns::{DnsStateView, MergedDnsStateView};
use crate::hostname::{HostNameStateView, MergedHostNameStateView};
use crate::iface::{BaseInterfaceView, InterfaceState, InterfaceType};
use crate::ifaces::{
    first_duplicate, iface_position, lemma_iface_position, lemma_well_typed, merged_all,
    merged_one, to_apply, unmet, InterfaceView, InterfacesView, MergedInterfaceView,
    MergedInterfacesView,
};
use crate::names::{missing, names_among_except};
use crate::net_state::{joined_entries, MergedNetworkStateView, NetworkStateView};
use crate::ovn::{MergedOvnConfigurationView, OvnConfigurationView};
use crate::ovs::{
    ovsdb_mismatch, patch_port_names, ports_except, section_mismatch,
    without_all_extra_patch_ports,
};
use crate::ovs_types::OvsBridgePortConfigView;
use crate::ovsdb::OvsDbGlobalConfigView;
use crate::route::{
    listed, route_failure, rule_failure, MergedRouteRulesView, MergedRoutesView, RouteEntryView,
    RouteRuleEntryView,
};
use crate::strmap::{entries, keys_unique, lemma_first_with_key, StrMapView};
use vstd::prelude::*;

verus! {

/// What an interface is found by: its name and whether it lives in user
/// space.
pub open spec fn key_of(i: InterfaceView) -> (Seq<char>, bool) {
    (i.base().name, i.base().iface_type.userspace())
}

/// An interface goes by a name and a type exactly when these are its key.
pub proof fn lemma_goes_by_key(i: InterfaceView, name: Seq<char>, ty: InterfaceType)
    ensures
        i.goes_by(name, ty) <==> key_of(i) == (name, ty.userspace()),
{
}

/// The position of a key depends on the keys of the list alone.
pub proof fn lemma_position_by_keys(
    a: Seq<InterfaceView>,
    b: Seq<InterfaceView>,
    name: Seq<char>,
    ty: InterfaceType,
    from: int,
)
    requires
        a.len() == b.len(),
        forall|i: int| 0 <= i < a.len() ==> key_of(#[trigger] a[i]) == key_of(b[i]),
        0 <= from <= a.len(),
    ensures
        iface_position(a, name, ty, from) == iface_position(b, name, ty, from),
    decreases a.len() - from,
{
    if from < a.len() {
        assert(key_of(a[from]) == key_of(b[from]));
        lemma_goes_by_key(a[from], name, ty);
        lemma_goes_by_key(b[from], name, ty);
        if !a[from].goes_by(name, ty) {
            lemma_position_by_keys(a, b, name, ty, from + 1);
        }
    }
}

/// The position of a key in a list with one more interface at its end.
pub proof fn lemma_position_push(
    a: Seq<InterfaceView>,
    x: InterfaceView,
    name: Seq<char>,
    ty: InterfaceType,
    from: int,
)
    requires
        0 <= from <= a.len(),
    ensures
        iface_position(a, name, ty, from) < a.len() ==> iface_position(a.push(x), name, ty, from)
            == iface_position(a, name, ty, from),
        iface_position(a, name, ty, from) >= a.len() ==> iface_position(
            a.push(x),
            name,
            ty,
            from,
        ) == if x.goes_by(name, ty) {
            a.len() as int
        } else {
            a.len() as int + 1
        },
    decreases a.len() - from,
{
    lemma_iface_position(a, name, ty, from);
    if from < a.len() {
        assert(a.push(x)[from] == a[from]);
        if !a[from].goes_by(name, ty) {
            lemma_position_push(a, x, name, ty, from + 1);
        }
    } else {
        let b = a.push(x);
        assert(b[a.len() as int] == x);
        assert(iface_position(b, name, ty, a.len() as int + 1) == b.len());
        assert(iface_position(b, name, ty, a.len() as int) == if x.goes_by(name, ty) {
            a.len() as int
        } else {
            iface_position(b, name, ty, a.len() as int + 1)
        });
    }
}

/// Merging an interface into another that goes by its key keeps the key.
pub proof fn lemma_updated_key(y: InterfaceView, o: InterfaceView)
    requires
        key_of(y) == key_of(o),
    ensures
        key_of(y.updated(o)) == key_of(o),
{
}

/// What a desired interface asks of the interface found in its place.
pub open spec fn meets(d: InterfaceView, x: InterfaceView) -> bool {
    &&& key_of(x) == key_of(d)
    &&& d.met_by(Some(x))
}

/// A desired interface is met by itself.
pub proof fn lemma_meets_itself(d: InterfaceView)
    ensures
        meets(d, d),
{
}

/// Merging desired properties into properties of the same name gives
/// properties that hold everything that the desired ones state.
#[verifier::rlimit(50)]
pub proof fn lemma_base_updated(y: BaseInterfaceView, d: BaseInterfaceView)
    requires
        y.name == d.name,
        y.iface_type.userspace() == d.iface_type.userspace(),
    ensures
        d.satisfied_by(y.updated(d)),
        y.updated(d).name == d.name,
        y.updated(d).iface_type.userspace() == d.iface_type.userspace(),
        d.state == InterfaceState::Absent ==> y.updated(d).state == InterfaceState::Absent,
{
}

/// Merging a desired interface into one that goes by its key gives an
/// interface that meets it.
#[verifier::rlimit(50)]
pub proof fn lemma_updated_meets(y: InterfaceView, d: InterfaceView)
    requires
        key_of(y) == key_of(d),
    ensures
        meets(d, y.updated(d)),
{
    match (y, d) {
        (InterfaceView::Ethernet(a), InterfaceView::Ethernet(b)) => {
            lemma_base_updated(a.base, b.base);
        },
        (InterfaceView::Vlan(a), InterfaceView::Vlan(b)) => {
            lemma_base_updated(a.base, b.base);
        },
        (InterfaceView::OvsBridge(a), InterfaceView::OvsBridge(b)) => {
            lemma_base_updated(a.base, b.base);
        },
        (InterfaceView::OvsInterface(a), InterfaceView::OvsInterface(b)) => {
            lemma_base_updated(a.base, b.base);
        },
        (InterfaceView::Unknown(a), InterfaceView::Unknown(b)) => {
            lemma_base_updated(a.base, b.base);
        },
        _ => {
            assert(y.updated(d) == d);
        },
    }
}

/// The first interface of a list that goes by a name where a type lives.
pub open spec fn find_in(l: Seq<InterfaceView>, name: Seq<char>, ty: InterfaceType) -> Option<
    InterfaceView,
> {
    (InterfacesView { ifaces: l }).find(name, ty)
}

/// Merging an interface into a list changes nothing under another key.
#[verifier::rlimit(50)]
pub proof fn lemma_merged_one_other_key(
    l: Seq<InterfaceView>,
    o: InterfaceView,
    name: Seq<char>,
    ty: InterfaceType,
)
    requires
        key_of(o) != (name, ty.userspace()),
    ensures
        find_in(merged_one(l, o), name, ty) == find_in(l, name, ty),
{
    let on = o.base().name;
    let ot = o.base().iface_type;
    let p = iface_position(l, on, ot, 0);
    lemma_iface_position(l, on, ot, 0);
    lemma_iface_position(l, name, ty, 0);
    let q = iface_position(l, name, ty, 0);
    lemma_goes_by_key(o, name, ty);
    if p < l.len() {
        let l2 = l.update(p, l[p].updated(o));
        lemma_goes_by_key(l[p], on, ot);
        lemma_updated_key(l[p], o);
        assert forall|i: int| 0 <= i < l.len() implies key_of(#[trigger] l[i]) == key_of(
            l2[i],
        ) by {}
        lemma_position_by_keys(l, l2, name, ty, 0);
        if q < l.len() {
            lemma_goes_by_key(l[q], name, ty);
            assert(q != p);
        }
    } else {
        lemma_position_push(l, o, name, ty, 0);
    }
}

/// Merging interfaces of other keys into a list changes nothing under a
/// key.
pub proof fn lemma_merged_all_other_keys(
    l: Seq<InterfaceView>,
    others: Seq<InterfaceView>,
    name: Seq<char>,
    ty: InterfaceType,
)
    requires
        forall|i: int|
            0 <= i < others.len() ==> key_of(#[trigger] others[i]) != (name, ty.userspace()),
    ensures
        find_in(merged_all(l, others), name, ty) == find_in(l, name, ty),
    decreases others.len(),
{
    if others.len() > 0 {
        let front = others.drop_last();
        assert forall|i: int| 0 <= i < front.len() implies key_of(#[trigger] front[i]) != (
            name,
            ty.userspace(),
        ) by {
            assert(front[i] == others[i]);
        }
        lemma_merged_all_other_keys(l, front, name, ty);
        assert(others.last() == others[others.len() - 1]);
        lemma_merged_one_other_key(merged_all(l, front), others.last(), name, ty);
    }
}

/// Merging a desired interface into a list puts an interface that meets it
/// under its key.
#[verifier::rlimit(50)]
pub proof fn lemma_merged_one_meets(l: Seq<InterfaceView>, d: InterfaceView)
    ensures
        find_in(merged_one(l, d), d.base().name, d.base().iface_type) matches Some(x) && meets(
            d,
            x,
        ),
{
    let name = d.base().name;
    let ty = d.base().iface_type;
    let p = iface_position(l, name, ty, 0);
    lemma_iface_position(l, name, ty, 0);
    lemma_goes_by_key(d, name, ty);
    if p < l.len() {
        let l2 = l.update(p, l[p].updated(d));
        lemma_goes_by_key(l[p], name, ty);
        lemma_updated_key(l[p], d);
        lemma_updated_meets(l[p], d);
        assert forall|i: int| 0 <= i < l.len() implies key_of(#[trigger] l[i]) == key_of(
            l2[i],
        ) by {}
        lemma_position_by_keys(l, l2, name, ty, 0);
    } else {
        lemma_position_push(l, d, name, ty, 0);
        lemma_meets_itself(d);
        assert(l.push(d)[l.len() as int] == d);
    }
}

/// Merging a list of interfaces that holds a desired interface, and no
/// other interface of its key, puts an interface that meets the desired one
/// under its key.
pub proof fn lemma_merged_all_meets(
    l: Seq<InterfaceView>,
    others: Seq<InterfaceView>,
    d: InterfaceView,
)
    requires
        others.contains(d),
        forall|i: int|
            0 <= i < others.len() && key_of(#[trigger] others[i]) == key_of(d) ==> others[i] == d,
    ensures
        find_in(merged_all(l, others), d.base().name, d.base().iface_type) matches Some(x)
            && meets(d, x),
    decreases others.len(),
{
    let name = d.base().name;
    let ty = d.base().iface_type;
    let front = others.drop_last();
    let o = others.last();
    assert(o == others[others.len() - 1]);
    assert forall|i: int| 0 <= i < front.len() && key_of(#[trigger] front[i]) == key_of(
        d,
    ) implies front[i] == d by {
        assert(front[i] == others[i]);
    }
    if key_of(o) == key_of(d) {
        assert(o == d);
        lemma_merged_one_meets(merged_all(l, front), d);
    } else {
        let i = choose|i: int| 0 <= i < others.len() && others[i] == d;
        assert(i < front.len());
        assert(front[i] == d);
        lemma_merged_all_meets(l, front, d);
        lemma_merged_one_other_key(merged_all(l, front), o, name, ty);
    }
}

/// In a list that names no interface twice, every interface is the first
/// to go by its key.
pub proof fn lemma_no_duplicate_positions(d: Seq<InterfaceView>, from: int, j: int)
    requires
        0 <= from <= j < d.len(),
        first_duplicate(d, from) >= d.len(),
    ensures
        iface_position(d, d[j].base().name, d[j].base().iface_type, 0) == j,
    decreases j - from,
{
    if from < j {
        lemma_no_duplicate_positions(d, from + 1, j);
    }
}

/// In a list that names no interface twice, two interfaces of one key are
/// one interface.
pub proof fn lemma_no_duplicate_keys(d: Seq<InterfaceView>, j1: int, j2: int)
    requires
        first_duplicate(d, 0) >= d.len(),
        0 <= j1 < d.len(),
        0 <= j2 < d.len(),
        key_of(d[j1]) == key_of(d[j2]),
    ensures
        j1 == j2,
{
    lemma_no_duplicate_positions(d, 0, j1);
    lemma_no_duplicate_positions(d, 0, j2);
    lemma_iface_position(d, d[j1].base().name, d[j1].base().iface_type, 0);
    lemma_iface_position(d, d[j2].base().name, d[j2].base().iface_type, 0);
    lemma_goes_by_key(d[j1], d[j2].base().name, d[j2].base().iface_type);
    lemma_goes_by_key(d[j2], d[j1].base().name, d[j1].base().iface_type);
}

/// Whether an entry comes from one of the desired interfaces.
pub open spec fn from_desired(
    e: MergedInterfaceView,
    d: Seq<InterfaceView>,
    current: InterfacesView,
) -> bool {
    exists|j: int| 0 <= j < d.len() && e == MergedInterfaceView::of_desired(#[trigger] d[j], current)
}

/// Whether an entry comes from a desired interface or has nothing to apply
/// and nothing to compare.
pub open spec fn accounted(
    e: MergedInterfaceView,
    d: Seq<InterfaceView>,
    current: InterfacesView,
) -> bool {
    from_desired(e, d, current) || (e.desired is None && e.for_apply is None && e.for_verify
        is None)
}

/// Whether every entry is accounted for.
pub open spec fn all_accounted(
    m: MergedInterfacesView,
    d: Seq<InterfaceView>,
    current: InterfacesView,
) -> bool {
    &&& forall|i: int|
        0 <= i < m.kernel_ifaces.len() ==> accounted(#[trigger] m.kernel_ifaces[i], d, current)
    &&& forall|i: int|
        0 <= i < m.user_ifaces.len() ==> accounted(#[trigger] m.user_ifaces[i], d, current)
}

/// Whether an entry is among the entries.
pub open spec fn holds_entry(m: MergedInterfacesView, e: MergedInterfaceView) -> bool {
    m.kernel_ifaces.contains(e) || m.user_ifaces.contains(e)
}

/// Adding an entry keeps the entries that were there and holds the new
/// one.
pub proof fn lemma_with_holds(m: MergedInterfacesView, e: MergedInterfaceView)
    ensures
        holds_entry(m.with(e), e),
        forall|x: MergedInterfaceView| holds_entry(m, x) ==> holds_entry(m.with(e), x),
{
    let m2 = m.with(e);
    if e.merged.base().iface_type.userspace() {
        assert(m2.user_ifaces[m.user_ifaces.len() as int] == e);
    } else {
        assert(m2.kernel_ifaces[m.kernel_ifaces.len() as int] == e);
    }
    assert forall|x: MergedInterfaceView| holds_entry(m, x) implies holds_entry(m2, x) by {
        if m.kernel_ifaces.contains(x) {
            let i = choose|i: int| 0 <= i < m.kernel_ifaces.len() && m.kernel_ifaces[i] == x;
            assert(m2.kernel_ifaces[i] == x);
        } else {
            let i = choose|i: int| 0 <= i < m.user_ifaces.len() && m.user_ifaces[i] == x;
            assert(m2.user_ifaces[i] == x);
        }
    }
}

/// Adding an entry that is accounted for keeps all entries accounted for.
pub proof fn lemma_with_accounted(
    m: MergedInterfacesView,
    e: MergedInterfaceView,
    d: Seq<InterfaceView>,
    current: InterfacesView,
)
    requires
        all_accounted(m, d, current),
        accounted(e, d, current),
    ensures
        all_accounted(m.with(e), d, current),
{
    let m2 = m.with(e);
    assert forall|i: int| 0 <= i < m2.kernel_ifaces.len() implies accounted(
        #[trigger] m2.kernel_ifaces[i],
        d,
        current,
    ) by {
        if i < m.kernel_ifaces.len() {
            assert(m2.kernel_ifaces[i] == m.kernel_ifaces[i]);
        }
    }
    assert forall|i: int| 0 <= i < m2.user_ifaces.len() implies accounted(
        #[trigger] m2.user_ifaces[i],
        d,
        current,
    ) by {
        if i < m.user_ifaces.len() {
            assert(m2.user_ifaces[i] == m.user_ifaces[i]);
        }
    }
}

/// Laying desired interfaces out accounts for every entry and holds an
/// entry for every desired interface.
pub proof fn lemma_with_desired(
    m: MergedInterfacesView,
    some: Seq<InterfaceView>,
    d: Seq<InterfaceView>,
    current: InterfacesView,
)
    requires
        all_accounted(m, d, current),
        forall|i: int| 0 <= i < some.len() ==> d.contains(#[trigger] some[i]),
    ensures
        all_accounted(m.with_desired(some, current), d, current),
        forall|i: int|
            0 <= i < some.len() ==> holds_entry(
                m.with_desired(some, current),
                MergedInterfaceView::of_desired(#[trigger] some[i], current),
            ),
        forall|x: MergedInterfaceView|
            holds_entry(m, x) ==> holds_entry(m.with_desired(some, current), x),
    decreases some.len(),
{
    if some.len() > 0 {
        let front = some.drop_last();
        let last = some.last();
        assert(last == some[some.len() - 1]);
        assert forall|i: int| 0 <= i < front.len() implies d.contains(#[trigger] front[i]) by {
            assert(front[i] == some[i]);
        }
        lemma_with_desired(m, front, d, current);
        let before = m.with_desired(front, current);
        let e = MergedInterfaceView::of_desired(last, current);
        assert(d.contains(last));
        let j = choose|j: int| 0 <= j < d.len() && d[j] == last;
        assert(e == MergedInterfaceView::of_desired(d[j], current));
        assert(from_desired(e, d, current));
        lemma_with_accounted(before, e, d, current);
        lemma_with_holds(before, e);
        assert forall|i: int| 0 <= i < some.len() implies holds_entry(
            m.with_desired(some, current),
            MergedInterfaceView::of_desired(#[trigger] some[i], current),
        ) by {
            if i < front.len() {
                assert(front[i] == some[i]);
            }
        }
    }
}

/// Adding the current interfaces that are not spoken of keeps every entry
/// accounted for and keeps the entries that were there.
pub proof fn lemma_with_current_only(
    m: MergedInterfacesView,
    found: Seq<InterfaceView>,
    desired: InterfacesView,
    d: Seq<InterfaceView>,
    current: InterfacesView,
)
    requires
        all_accounted(m, d, current),
    ensures
        all_accounted(m.with_current_only(found, desired), d, current),
        forall|x: MergedInterfaceView|
            holds_entry(m, x) ==> holds_entry(m.with_current_only(found, desired), x),
    decreases found.len(),
{
    if found.len() > 0 {
        lemma_with_current_only(m, found.drop_last(), desired, d, current);
        let before = m.with_current_only(found.drop_last(), desired);
        let e = MergedInterfaceView::of_current(found.last());
        if desired.find(found.last().base().name, found.last().base().iface_type) is None {
            lemma_with_accounted(before, e, d, current);
            lemma_with_holds(before, e);
        }
    }
}

/// What there is to apply of a list of entries holds exactly what some
/// entry has to apply.
pub proof fn lemma_to_apply_holds(es: Seq<MergedInterfaceView>)
    ensures
        forall|x: InterfaceView|
            to_apply(es).contains(x) <==> exists|i: int|
                0 <= i < es.len() && (#[trigger] es[i]).for_apply == Some(x),
    decreases es.len(),
{
    if es.len() == 0 {
        assert forall|x: InterfaceView| !to_apply(es).contains(x) by {}
    } else {
        let front = es.drop_last();
        lemma_to_apply_holds(front);
        let rest = to_apply(front);
        assert forall|x: InterfaceView|
            to_apply(es).contains(x) <==> exists|i: int|
                0 <= i < es.len() && (#[trigger] es[i]).for_apply == Some(x) by {
            if to_apply(es).contains(x) {
                let k = choose|k: int| 0 <= k < to_apply(es).len() && to_apply(es)[k] == x;
                if k < rest.len() {
                    assert(rest[k] == x);
                    assert(rest.contains(x));
                    let i = choose|i: int| 0 <= i < front.len() && (#[trigger] front[i]).for_apply
                        == Some(x);
                    assert(es[i] == front[i]);
                } else {
                    assert(es[es.len() - 1].for_apply == Some(x));
                }
            }
            if exists|i: int| 0 <= i < es.len() && (#[trigger] es[i]).for_apply == Some(x) {
                let i = choose|i: int| 0 <= i < es.len() && (#[trigger] es[i]).for_apply == Some(
                    x,
                );
                if i < front.len() {
                    assert(front[i] == es[i]);
                    assert(rest.contains(x));
                    let k = choose|k: int| 0 <= k < rest.len() && rest[k] == x;
                    assert(to_apply(es)[k] == x);
                } else {
                    assert(es.last().for_apply == Some(x));
                    assert(to_apply(es)[rest.len() as int] == x);
                }
            }
        }
    }
}

/// The interfaces that change, each of which is a desired interface that
/// has something to apply.
pub proof fn lemma_diff_is_desired(des: InterfacesView, cur: InterfacesView, k: int)
    requires
        0 <= k < MergedInterfacesView::laid_out(des, cur).diff().ifaces.len(),
    ensures
        exists|j: int|
            0 <= j < des.ifaces.len() && #[trigger] des.ifaces[j]
                == MergedInterfacesView::laid_out(des, cur).diff().ifaces[k]
                && MergedInterfaceView::of_desired(des.ifaces[j], cur).for_apply == Some(
                des.ifaces[j],
            ),
{
    let d = des.ifaces;
    let m0 = MergedInterfacesView::empty().with_desired(d, cur);
    let m = MergedInterfacesView::laid_out(des, cur);
    lemma_with_desired(MergedInterfacesView::empty(), d, d, cur);
    lemma_with_current_only(m0, cur.ifaces, des, d, cur);
    lemma_to_apply_holds(m.kernel_ifaces);
    lemma_to_apply_holds(m.user_ifaces);
    let diff = m.diff().ifaces;
    let x = diff[k];
    let ka = to_apply(m.kernel_ifaces);
    let ua = to_apply(m.user_ifaces);
    let e = if k < ka.len() {
        assert(ka[k] == x);
        assert(ka.contains(x));
        let i = choose|i: int| 0 <= i < m.kernel_ifaces.len() && (#[trigger] m.kernel_ifaces[i]).for_apply
            == Some(x);
        m.kernel_ifaces[i]
    } else {
        assert(ua[k - ka.len()] == x);
        assert(ua.contains(x));
        let i = choose|i: int| 0 <= i < m.user_ifaces.len() && (#[trigger] m.user_ifaces[i]).for_apply
            == Some(x);
        m.user_ifaces[i]
    };
    assert(accounted(e, d, cur));
    assert(from_desired(e, d, cur));
    let j = choose|j: int| 0 <= j < d.len() && e == MergedInterfaceView::of_desired(
        #[trigger] d[j],
        cur,
    );
    assert(MergedInterfaceView::of_desired(d[j], cur).for_apply == Some(x));
    assert(d[j] == x);
}

/// A desired interface that has something to apply is among the
/// interfaces that change.
pub proof fn lemma_desired_in_diff(des: InterfacesView, cur: InterfacesView, j: int)
    requires
        0 <= j < des.ifaces.len(),
        MergedInterfaceView::of_desired(des.ifaces[j], cur).for_apply is Some,
    ensures
        MergedInterfacesView::laid_out(des, cur).diff().ifaces.contains(des.ifaces[j]),
{
    let d = des.ifaces;
    let m0 = MergedInterfacesView::empty().with_desired(d, cur);
    let m = MergedInterfacesView::laid_out(des, cur);
    lemma_with_desired(MergedInterfacesView::empty(), d, d, cur);
    lemma_with_current_only(m0, cur.ifaces, des, d, cur);
    lemma_to_apply_holds(m.kernel_ifaces);
    lemma_to_apply_holds(m.user_ifaces);
    let e = MergedInterfaceView::of_desired(d[j], cur);
    assert(holds_entry(m0, e));
    assert(holds_entry(m, e));
    let ka = to_apply(m.kernel_ifaces);
    let ua = to_apply(m.user_ifaces);
    let diff = m.diff().ifaces;
    if m.kernel_ifaces.contains(e) {
        let i = choose|i: int| 0 <= i < m.kernel_ifaces.len() && m.kernel_ifaces[i] == e;
        assert(m.kernel_ifaces[i].for_apply == Some(d[j]));
        assert(ka.contains(d[j]));
        let k = choose|k: int| 0 <= k < ka.len() && ka[k] == d[j];
        assert(diff[k] == d[j]);
    } else {
        let i = choose|i: int| 0 <= i < m.user_ifaces.len() && m.user_ifaces[i] == e;
        assert(m.user_ifaces[i].for_apply == Some(d[j]));
        assert(ua.contains(d[j]));
        let k = choose|k: int| 0 <= k < ua.len() && ua[k] == d[j];
        assert(diff[ka.len() + k] == d[j]);
    }
}

/// After the interfaces that change were merged into the current ones,
/// every desired interface that is not ignored is met by what is found in
/// its place.
pub proof fn lemma_desired_settled(des: InterfacesView, cur: InterfacesView, j: int)
    requires
        first_duplicate(des.ifaces, 0) >= des.ifaces.len(),
        0 <= j < des.ifaces.len(),
        des.ifaces[j].base().state != InterfaceState::Ignore,
    ensures
        des.ifaces[j].met_by(
            find_in(
                merged_all(cur.ifaces, MergedInterfacesView::laid_out(des, cur).diff().ifaces),
                des.ifaces[j].base().name,
                des.ifaces[j].base().iface_type,
            ),
        ),
{
    let d = des.ifaces[j];
    let name = d.base().name;
    let ty = d.base().iface_type;
    let diff = MergedInterfacesView::laid_out(des, cur).diff().ifaces;
    let e = MergedInterfaceView::of_desired(d, cur);
    lemma_goes_by_key(d, name, ty);
    if e.for_apply is Some {
        lemma_desired_in_diff(des, cur, j);
        assert forall|k: int| 0 <= k < diff.len() && key_of(#[trigger] diff[k]) == key_of(
            d,
        ) implies diff[k] == d by {
            lemma_diff_is_desired(des, cur, k);
            let j2 = choose|j2: int|
                0 <= j2 < des.ifaces.len() && #[trigger] des.ifaces[j2] == diff[k]
                    && MergedInterfaceView::of_desired(des.ifaces[j2], cur).for_apply == Some(
                    des.ifaces[j2],
                );
            lemma_no_duplicate_keys(des.ifaces, j, j2);
        }
        lemma_merged_all_meets(cur.ifaces, diff, d);
    } else {
        assert forall|k: int| 0 <= k < diff.len() implies key_of(#[trigger] diff[k]) != (
            name,
            ty.userspace(),
        ) by {
            if key_of(diff[k]) == key_of(d) {
                lemma_diff_is_desired(des, cur, k);
                let j2 = choose|j2: int|
                    0 <= j2 < des.ifaces.len() && #[trigger] des.ifaces[j2] == diff[k]
                        && MergedInterfaceView::of_desired(des.ifaces[j2], cur).for_apply == Some(
                        des.ifaces[j2],
                    );
                lemma_no_duplicate_keys(des.ifaces, j, j2);
            }
        }
        lemma_merged_all_other_keys(cur.ifaces, diff, name, ty);
    }
}

/// The position of a key does not depend on how the key is given.
pub proof fn lemma_position_same_key(
    l: Seq<InterfaceView>,
    n1: Seq<char>,
    t1: InterfaceType,
    n2: Seq<char>,
    t2: InterfaceType,
    from: int,
)
    requires
        (n1, t1.userspace()) == (n2, t2.userspace()),
        0 <= from <= l.len(),
    ensures
        iface_position(l, n1, t1, from) == iface_position(l, n2, t2, from),
    decreases l.len() - from,
{
    if from < l.len() {
        lemma_goes_by_key(l[from], n1, t1);
        lemma_goes_by_key(l[from], n2, t2);
        if !l[from].goes_by(n1, t1) {
            lemma_position_same_key(l, n1, t1, n2, t2, from + 1);
        }
    }
}

/// Of names that are all excepted, none is picked.
pub proof fn lemma_none_among_except(from: Seq<Seq<char>>, among: Seq<Seq<char>>, except: Seq<
    Seq<char>,
>)
    requires
        forall|i: int| 0 <= i < from.len() ==> except.contains(#[trigger] from[i]),
    ensures
        names_among_except(from, among, except) == Seq::<Seq<char>>::empty(),
    decreases from.len(),
{
    if from.len() > 0 {
        assert forall|i: int| 0 <= i < from.drop_last().len() implies except.contains(
            #[trigger] from.drop_last()[i],
        ) by {
            assert(from.drop_last()[i] == from[i]);
        }
        lemma_none_among_except(from.drop_last(), among, except);
        assert(from.last() == from[from.len() - 1]);
    }
}

/// Detaching no ports leaves the ports as they are.
pub proof fn lemma_ports_except_none(ps: Seq<OvsBridgePortConfigView>)
    ensures
        ports_except(ps, Seq::empty()) == ps,
    decreases ps.len(),
{
    if ps.len() > 0 {
        lemma_ports_except_none(ps.drop_last());
        assert(ps.drop_last().push(ps.last()) =~= ps);
    } else {
        assert(ps =~= Seq::empty());
    }
}

/// Detaching no ports leaves an interface as it is.
pub proof fn lemma_without_no_ports(x: InterfaceView)
    ensures
        x.without_ports(Seq::empty()) == x,
{
    match x {
        InterfaceView::OvsBridge(b) => {
            match b.bridge {
                Some(conf) => match conf.ports {
                    Some(ps) => {
                        lemma_ports_except_none(ps);
                    },
                    None => {},
                },
                None => {},
            }
        },
        _ => {},
    }
}

/// Whether taking the extra patch ports off for an entry leaves what was
/// found under a key as it is: the entry tolerates no extra patch ports,
/// or its desired bridge goes by another key, or no port of the bridge
/// found is to be taken off.
pub open spec fn leaves_alone(
    e: MergedInterfaceView,
    name: Seq<char>,
    ty: InterfaceType,
    found: Option<InterfaceView>,
    patch_ports: Seq<Seq<char>>,
) -> bool {
    match e.desired {
        Some(InterfaceView::OvsBridge(o)) => e.allows_extra_patch_ports() ==> {
            ||| (o.base.name, true) != (name, ty.userspace())
            ||| match (o.ports(), found) {
                (Some(dp), Some(x)) => x.ports() matches Some(cp) ==> names_among_except(
                    cp,
                    patch_ports,
                    dp,
                ) == Seq::<Seq<char>>::empty(),
                _ => true,
            }
        },
        _ => true,
    }
}

/// Taking the extra patch ports off for an entry that leaves a key alone
/// changes nothing under that key.
#[verifier::rlimit(50)]
pub proof fn lemma_leaves_alone(
    e: MergedInterfaceView,
    l: Seq<InterfaceView>,
    name: Seq<char>,
    ty: InterfaceType,
    patch_ports: Seq<Seq<char>>,
)
    requires
        leaves_alone(e, name, ty, find_in(l, name, ty), patch_ports),
    ensures
        find_in(
            e.current_without_extra_patch_ports(InterfacesView { ifaces: l }, patch_ports).ifaces,
            name,
            ty,
        ) == find_in(l, name, ty),
{
    match e.desired {
        Some(InterfaceView::OvsBridge(o)) => {
            if e.allows_extra_patch_ports() {
                let p = iface_position(l, o.base.name, InterfaceType::OvsBridge, 0);
                lemma_iface_position(l, o.base.name, InterfaceType::OvsBridge, 0);
                lemma_iface_position(l, name, ty, 0);
                let q = iface_position(l, name, ty, 0);
                if p < l.len() {
                    lemma_goes_by_key(l[p], o.base.name, InterfaceType::OvsBridge);
                    match (o.ports(), l[p].ports()) {
                        (Some(dp), Some(cp)) => {
                            let gone = names_among_except(cp, patch_ports, dp);
                            let l2 = l.update(p, l[p].without_ports(gone));
                            assert forall|i: int| 0 <= i < l.len() implies key_of(
                                #[trigger] l[i],
                            ) == key_of(l2[i]) by {}
                            lemma_position_by_keys(l, l2, name, ty, 0);
                            if (o.base.name, true) != (name, ty.userspace()) {
                                if q < l.len() {
                                    lemma_goes_by_key(l[q], name, ty);
                                    assert(q != p);
                                }
                            } else {
                                lemma_position_same_key(
                                    l,
                                    o.base.name,
                                    InterfaceType::OvsBridge,
                                    name,
                                    ty,
                                    0,
                                );
                                assert(q == p);
                                lemma_without_no_ports(l[p]);
                                assert(l2 =~= l);
                            }
                        },
                        _ => {},
                    }
                }
            }
        },
        _ => {},
    }
}

/// Taking the extra patch ports off for entries that all leave a key alone
/// changes nothing under that key.
pub proof fn lemma_all_leave_alone(
    es: Seq<MergedInterfaceView>,
    l: Seq<InterfaceView>,
    name: Seq<char>,
    ty: InterfaceType,
    patch_ports: Seq<Seq<char>>,
)
    requires
        forall|i: int|
            0 <= i < es.len() ==> leaves_alone(
                #[trigger] es[i],
                name,
                ty,
                find_in(l, name, ty),
                patch_ports,
            ),
    ensures
        find_in(
            without_all_extra_patch_ports(InterfacesView { ifaces: l }, es, patch_ports).ifaces,
            name,
            ty,
        ) == find_in(l, name, ty),
    decreases es.len(),
{
    if es.len() > 0 {
        let front = es.drop_last();
        assert forall|i: int| 0 <= i < front.len() implies leaves_alone(
            #[trigger] front[i],
            name,
            ty,
            find_in(l, name, ty),
            patch_ports,
        ) by {
            assert(front[i] == es[i]);
        }
        lemma_all_leave_alone(front, l, name, ty, patch_ports);
        let before = without_all_extra_patch_ports(
            InterfacesView { ifaces: l },
            front,
            patch_ports,
        );
        assert(es.last() == es[es.len() - 1]);
        assert(before == InterfacesView { ifaces: before.ifaces });
        lemma_leaves_alone(es.last(), before.ifaces, name, ty, patch_ports);
    }
}

/// What is found in a list of interfaces prepared for comparison is what
/// was found before, prepared for comparison.
pub proof fn lemma_sanitized_find(l: Seq<InterfaceView>, name: Seq<char>, ty: InterfaceType)
    ensures
        (InterfacesView { ifaces: l }).sanitized().find(name, ty) == match find_in(l, name, ty) {
            Some(x) => Some(x.sanitized()),
            None => None,
        },
{
    let l2 = (InterfacesView { ifaces: l }).sanitized().ifaces;
    assert forall|i: int| 0 <= i < l.len() implies key_of(#[trigger] l[i]) == key_of(l2[i]) by {}
    lemma_position_by_keys(l, l2, name, ty, 0);
    lemma_iface_position(l, name, ty, 0);
}

/// The interface that is compared for a desired interface: the desired
/// interface itself or, where it tolerates extra patch ports, the bridge
/// without its word on them.
pub open spec fn compared_as(d: InterfaceView, dv: InterfaceView) -> bool {
    dv == d || match d {
        InterfaceView::OvsBridge(c) => dv == InterfaceView::OvsBridge(
            c.without_allow_extra_patch_ports(),
        ) && d.base().state == InterfaceState::Up,
        _ => false,
    }
}

/// What meets a desired interface meets it when both are prepared for
/// comparison.
#[verifier::rlimit(50)]
pub proof fn lemma_sanitized_meets(d: InterfaceView, dv: InterfaceView, found: Option<InterfaceView>)
    requires
        compared_as(d, dv),
        d.met_by(found),
    ensures
        dv.sanitized().met_by(
            match found {
                Some(x) => Some(x.sanitized()),
                None => None,
            },
        ),
{
}

/// Entries of which every interface to be compared is met have no
/// interface that is not met.
pub proof fn lemma_none_unmet(es: Seq<MergedInterfaceView>, current: InterfacesView, from: int)
    requires
        0 <= from <= es.len(),
        forall|i: int|
            0 <= i < es.len() ==> ((#[trigger] es[i]).for_verify matches Some(dv)
                ==> dv.sanitized().met_by(current.find(dv.base().name, dv.base().iface_type))),
    ensures
        unmet(es, current, from) is None,
    decreases es.len() - from,
{
    if from < es.len() {
        lemma_none_unmet(es, current, from + 1);
    }
}

/// What is compared for an entry that is accounted for, once it is ready
/// for the comparison of patch ports, is compared as a desired interface
/// that is not ignored.
pub proof fn lemma_ready_entry(e: MergedInterfaceView, des: InterfacesView, cur: InterfacesView)
    requires
        accounted(e, des.ifaces, cur),
        e.ready_for_extra_patch_ports().for_verify is Some,
    ensures
        exists|j: int|
            0 <= j < des.ifaces.len() && e == MergedInterfaceView::of_desired(
                #[trigger] des.ifaces[j],
                cur,
            ) && des.ifaces[j].base().state != InterfaceState::Ignore && compared_as(
                des.ifaces[j],
                e.ready_for_extra_patch_ports().for_verify->0,
            ),
{
    assert(from_desired(e, des.ifaces, cur));
    let j = choose|j: int|
        0 <= j < des.ifaces.len() && e == MergedInterfaceView::of_desired(
            #[trigger] des.ifaces[j],
            cur,
        );
    assert(e.for_verify == Some(des.ifaces[j]));
}

/// Every entry leaves alone what is found under the key of a desired
/// interface that is met by it.
#[verifier::rlimit(50)]
pub proof fn lemma_entry_leaves_alone(
    e: MergedInterfaceView,
    des: InterfacesView,
    cur: InterfacesView,
    j: int,
    found: Option<InterfaceView>,
    patch_ports: Seq<Seq<char>>,
)
    requires
        first_duplicate(des.ifaces, 0) >= des.ifaces.len(),
        forall|i: int| 0 <= i < des.ifaces.len() ==> (#[trigger] des.ifaces[i]).well_typed(),
        accounted(e, des.ifaces, cur),
        0 <= j < des.ifaces.len(),
        des.ifaces[j].met_by(found),
    ensures
        leaves_alone(
            e,
            des.ifaces[j].base().name,
            des.ifaces[j].base().iface_type,
            found,
            patch_ports,
        ),
{
    let d = des.ifaces[j];
    match e.desired {
        Some(InterfaceView::OvsBridge(o)) => {
            if e.allows_extra_patch_ports() {
                assert(from_desired(e, des.ifaces, cur));
                let j2 = choose|j2: int|
                    0 <= j2 < des.ifaces.len() && e == MergedInterfaceView::of_desired(
                        #[trigger] des.ifaces[j2],
                        cur,
                    );
                assert(des.ifaces[j2] == InterfaceView::OvsBridge(o));
                assert(des.ifaces[j2].well_typed());
                assert(key_of(des.ifaces[j2]) == (o.base.name, true));
                if (o.base.name, true) == (d.base().name, d.base().iface_type.userspace()) {
                    lemma_no_duplicate_keys(des.ifaces, j, j2);
                    match (o.ports(), found) {
                        (Some(dp), Some(x)) => {
                            match x.ports() {
                                Some(cp) => {
                                    assert(cp == dp);
                                    assert forall|i: int| 0 <= i < cp.len() implies dp.contains(
                                        #[trigger] cp[i],
                                    ) by {}
                                    lemma_none_among_except(cp, patch_ports, dp);
                                },
                                None => {},
                            }
                        },
                        _ => {},
                    }
                }
            }
        },
        _ => {},
    }
}

/// The interfaces round trip. When the desired interfaces name none twice
/// and every bridge of Open vSwitch among them has the type of one, merging
/// the interfaces that change into the current ones gives interfaces that
/// meet the desired ones.
#[verifier::rlimit(50)]
pub proof fn lemma_interfaces_round_trip(des: InterfacesView, cur: InterfacesView)
    requires
        first_duplicate(des.ifaces, 0) >= des.ifaces.len(),
        forall|i: int| 0 <= i < des.ifaces.len() ==> (#[trigger] des.ifaces[i]).well_typed(),
    ensures
        MergedInterfacesView::laid_out(des, cur).failure(
            cur.updated(MergedInterfacesView::laid_out(des, cur).diff()),
        ) is None,
{
    let d = des.ifaces;
    let m0 = MergedInterfacesView::empty().with_desired(d, cur);
    let m = MergedInterfacesView::laid_out(des, cur);
    lemma_with_desired(MergedInterfacesView::empty(), d, d, cur);
    lemma_with_current_only(m0, cur.ifaces, des, d, cur);
    let reached = cur.updated(m.diff());
    let c0 = reached.ifaces;
    assert(c0 == merged_all(cur.ifaces, m.diff().ifaces));
    let patch_ports = patch_port_names(c0);
    let c1 = without_all_extra_patch_ports(reached, m.kernel_ifaces, patch_ports);
    let c2 = without_all_extra_patch_ports(c1, m.user_ifaces, patch_ports);
    assert(c2 == m.current_without_extra_patch_ports(reached));
    let compared = c2.sanitized();
    let ready = m.ready_for_extra_patch_ports();

    assert forall|e: MergedInterfaceView|
        accounted(e, d, cur) && e.ready_for_extra_patch_ports().for_verify is Some implies (
        #[trigger] e.ready_for_extra_patch_ports()).for_verify->0.sanitized().met_by(
        compared.find(
            e.ready_for_extra_patch_ports().for_verify->0.base().name,
            e.ready_for_extra_patch_ports().for_verify->0.base().iface_type,
        ),
    ) by {
        let dv = e.ready_for_extra_patch_ports().for_verify->0;
        lemma_ready_entry(e, des, cur);
        let j = choose|j: int|
            0 <= j < d.len() && e == MergedInterfaceView::of_desired(#[trigger] d[j], cur)
                && d[j].base().state != InterfaceState::Ignore && compared_as(d[j], dv);
        let name = d[j].base().name;
        let ty = d[j].base().iface_type;
        assert(dv.base() == d[j].base());
        lemma_desired_settled(des, cur, j);
        let found = find_in(c0, name, ty);
        assert forall|i: int| 0 <= i < m.kernel_ifaces.len() implies leaves_alone(
            #[trigger] m.kernel_ifaces[i],
            name,
            ty,
            found,
            patch_ports,
        ) by {
            lemma_entry_leaves_alone(m.kernel_ifaces[i], des, cur, j, found, patch_ports);
        }
        assert(reached == InterfacesView { ifaces: c0 });
        lemma_all_leave_alone(m.kernel_ifaces, c0, name, ty, patch_ports);
        assert(find_in(c1.ifaces, name, ty) == found);
        assert forall|i: int| 0 <= i < m.user_ifaces.len() implies leaves_alone(
            #[trigger] m.user_ifaces[i],
            name,
            ty,
            find_in(c1.ifaces, name, ty),
            patch_ports,
        ) by {
            lemma_entry_leaves_alone(m.user_ifaces[i], des, cur, j, found, patch_ports);
        }
        assert(c1 == InterfacesView { ifaces: c1.ifaces });
        lemma_all_leave_alone(m.user_ifaces, c1.ifaces, name, ty, patch_ports);
        assert(find_in(c2.ifaces, name, ty) == found);
        assert(c2 == InterfacesView { ifaces: c2.ifaces });
        lemma_sanitized_find(c2.ifaces, name, ty);
        lemma_sanitized_meets(d[j], dv, found);
    }
    assert forall|i: int| 0 <= i < ready.kernel_ifaces.len() implies ((
    #[trigger] ready.kernel_ifaces[i]).for_verify matches Some(dv) ==> dv.sanitized().met_by(
        compared.find(dv.base().name, dv.base().iface_type),
    )) by {
        assert(ready.kernel_ifaces[i] == m.kernel_ifaces[i].ready_for_extra_patch_ports());
        assert(accounted(m.kernel_ifaces[i], d, cur));
    }
    assert forall|i: int| 0 <= i < ready.user_ifaces.len() implies ((
    #[trigger] ready.user_ifaces[i]).for_verify matches Some(dv) ==> dv.sanitized().met_by(
        compared.find(dv.base().name, dv.base().iface_type),
    )) by {
        assert(ready.user_ifaces[i] == m.user_ifaces[i].ready_for_extra_patch_ports());
        assert(accounted(m.user_ifaces[i], d, cur));
    }
    lemma_none_unmet(ready.kernel_ifaces, compared, 0);
    lemma_none_unmet(ready.user_ifaces, compared, 0);
}

/// What is missing is wanted and not present, and what is wanted is
/// present or missing.
pub proof fn lemma_missing<V>(wanted: Seq<V>, present: Seq<V>)
    ensures
        forall|x: V| missing(wanted, present).contains(x) ==> !present.contains(x),
        forall|i: int|
            0 <= i < wanted.len() ==> present.contains(#[trigger] wanted[i]) || missing(
                wanted,
                present,
            ).contains(wanted[i]),
    decreases wanted.len(),
{
    if wanted.len() > 0 {
        let front = wanted.drop_last();
        lemma_missing(front, present);
        let rest = missing(front, present);
        let all = missing(wanted, present);
        assert forall|x: V| all.contains(x) implies !present.contains(x) by {
            let k = choose|k: int| 0 <= k < all.len() && all[k] == x;
            if k < rest.len() {
                assert(rest[k] == x);
                assert(rest.contains(x));
            }
        }
        assert forall|i: int| 0 <= i < wanted.len() implies present.contains(
            #[trigger] wanted[i],
        ) || all.contains(wanted[i]) by {
            if i < front.len() {
                assert(front[i] == wanted[i]);
                if !present.contains(wanted[i]) {
                    let k = choose|k: int| 0 <= k < rest.len() && rest[k] == front[i];
                    assert(all[k] == wanted[i]);
                }
            } else {
                if !present.contains(wanted[i]) {
                    assert(all[rest.len() as int] == wanted[i]);
                }
            }
        }
    }
}

/// After the wanted entries that were missing have joined the present
/// ones, every wanted entry is there.
pub proof fn lemma_joined_holds_wanted<V>(mine: Option<Seq<V>>, wanted: Seq<V>)
    ensures
        forall|i: int|
            0 <= i < wanted.len() ==> listed(
                joined_entries(mine, Some(missing(wanted, listed(mine)))),
            ).contains(#[trigger] wanted[i]),
{
    let present = listed(mine);
    let gap = missing(wanted, present);
    let again = missing(gap, present);
    let all = present + again;
    lemma_missing(wanted, present);
    lemma_missing(gap, present);
    assert forall|i: int| 0 <= i < wanted.len() implies all.contains(#[trigger] wanted[i]) by {
        if present.contains(wanted[i]) {
            let k = choose|k: int| 0 <= k < present.len() && present[k] == wanted[i];
            assert(all[k] == wanted[i]);
        } else {
            assert(gap.contains(wanted[i]));
            let g = choose|g: int| 0 <= g < gap.len() && gap[g] == wanted[i];
            assert(present.contains(gap[g]) || again.contains(gap[g]));
            let k = choose|k: int| 0 <= k < again.len() && again[k] == wanted[i];
            assert(all[present.len() + k] == wanted[i]);
        }
    }
}

/// Routes that are all found report no failure.
pub proof fn lemma_routes_found(
    desired: Seq<RouteEntryView>,
    current: Seq<RouteEntryView>,
    ignored: Seq<Seq<char>>,
    from: int,
)
    requires
        0 <= from <= desired.len(),
        forall|i: int| 0 <= i < desired.len() ==> current.contains(#[trigger] desired[i]),
    ensures
        route_failure(desired, current, ignored, from) is None,
    decreases desired.len() - from,
{
    if from < desired.len() {
        lemma_routes_found(desired, current, ignored, from + 1);
    }
}

/// Rules that are all found report no failure.
pub proof fn lemma_rules_found(
    desired: Seq<RouteRuleEntryView>,
    current: Seq<RouteRuleEntryView>,
    ignored: Seq<Seq<char>>,
    from: int,
)
    requires
        0 <= from <= desired.len(),
        forall|i: int| 0 <= i < desired.len() ==> current.contains(#[trigger] desired[i]),
    ensures
        rule_failure(desired, current, ignored, from) is None,
    decreases desired.len() - from,
{
    if from < desired.len() {
        lemma_rules_found(desired, current, ignored, from + 1);
    }
}

/// The routes round trip.
pub proof fn lemma_routes_round_trip(
    desired: Option<Seq<RouteEntryView>>,
    current: Option<Seq<RouteEntryView>>,
    ignored: Seq<Seq<char>>,
)
    ensures
        (MergedRoutesView { desired, current }).failure(
            joined_entries(current, (MergedRoutesView { desired, current }).diff()),
            ignored,
        ) is None,
{
    let d = listed(desired);
    let gap = missing(d, listed(current));
    lemma_missing(d, listed(current));
    if gap.len() == 0 {
        assert forall|i: int| 0 <= i < d.len() implies listed(current).contains(
            #[trigger] d[i],
        ) by {
            if gap.contains(d[i]) {
                let k = choose|k: int| 0 <= k < gap.len() && gap[k] == d[i];
            }
        }
        lemma_routes_found(d, listed(current), ignored, 0);
    } else {
        lemma_joined_holds_wanted(current, d);
        let reached = listed(joined_entries(current, Some(gap)));
        lemma_routes_found(d, reached, ignored, 0);
    }
}

/// The rules round trip.
pub proof fn lemma_rules_round_trip(
    desired: Option<Seq<RouteRuleEntryView>>,
    current: Option<Seq<RouteRuleEntryView>>,
    ignored: Seq<Seq<char>>,
)
    ensures
        (MergedRouteRulesView { desired, current }).failure(
            joined_entries(current, (MergedRouteRulesView { desired, current }).diff()),
            ignored,
        ) is None,
{
    let d = listed(desired);
    let gap = missing(d, listed(current));
    lemma_missing(d, listed(current));
    if gap.len() == 0 {
        assert forall|i: int| 0 <= i < d.len() implies listed(current).contains(
            #[trigger] d[i],
        ) by {
            if gap.contains(d[i]) {
                let k = choose|k: int| 0 <= k < gap.len() && gap[k] == d[i];
            }
        }
        lemma_rules_found(d, listed(current), ignored, 0);
    } else {
        lemma_joined_holds_wanted(current, d);
        let reached = listed(joined_entries(current, Some(gap)));
        lemma_rules_found(d, reached, ignored, 0);
    }
}

/// Settings that bind no key twice hold every setting they want.
pub proof fn lemma_section_matches_itself(section: Seq<char>, m: StrMapView, from: int)
    requires
        keys_unique(m),
        0 <= from <= m.len(),
    ensures
        section_mismatch(section, m, m, from) is None,
    decreases m.len() - from,
{
    if from < m.len() {
        lemma_section_matches_itself(section, m, from + 1);
        lemma_first_with_key(m, 0, from);
    }
}

/// The database settings round trip.
pub proof fn lemma_ovsdb_round_trip(
    desired: Option<OvsDbGlobalConfigView>,
    current: Option<OvsDbGlobalConfigView>,
)
    requires
        desired matches Some(d) ==> keys_unique(entries(d.external_ids)) && keys_unique(
            entries(d.other_config),
        ),
    ensures
        ({
            let cur = match current {
                Some(c) => c,
                None => OvsDbGlobalConfigView::empty(),
            };
            let changed = ovsdb_mismatch(desired, cur) is Some;
            let sent = if changed {
                desired
            } else {
                None
            };
            let reached = if sent is Some {
                sent
            } else {
                current
            };
            ovsdb_mismatch(
                desired,
                match reached {
                    Some(c) => c,
                    None => OvsDbGlobalConfigView::empty(),
                },
            ) is None
        }),
{
    match desired {
        Some(d) => {
            lemma_section_matches_itself("external_ids"@, entries(d.external_ids), 0);
            lemma_section_matches_itself("other_config"@, entries(d.other_config), 0);
        },
        None => {},
    }
}

/// The host names round trip.
pub proof fn lemma_hostname_round_trip(
    desired: Option<HostNameStateView>,
    current: Option<HostNameStateView>,
)
    ensures
        ({
            let m = MergedHostNameStateView { desired, current };
            let sent = if m.is_changed() {
                desired
            } else {
                None
            };
            let reached = match sent {
                Some(oh) => Some(
                    match current {
                        Some(h) => h.updated(oh),
                        None => oh,
                    },
                ),
                None => current,
            };
            m.failure(reached) is None
        }),
{
}

/// The resolver configuration round trips.
pub proof fn lemma_dns_round_trip(desired: Option<DnsStateView>, current: Option<DnsStateView>)
    ensures
        ({
            let m = MergedDnsStateView { desired, current };
            let sent = if m.is_changed() {
                desired
            } else {
                None
            };
            let reached = if sent is Some {
                sent
            } else {
                current
            };
            m.failure(
                match reached {
                    Some(c) => c,
                    None => DnsStateView::empty(),
                },
            ) is None
        }),
{
}

/// The OVN configuration round trips.
pub proof fn lemma_ovn_round_trip(desired: OvnConfigurationView, current: OvnConfigurationView)
    ensures
        ({
            let m = MergedOvnConfigurationView { desired, current };
            let sent = if m.is_changed() {
                desired
            } else {
                OvnConfigurationView { bridge_mappings: None }
            };
            let reached = if !sent.is_none() {
                sent
            } else {
                current
            };
            m.failure(reached) is None
        }),
{
}

/// The difference round trips. Let the difference of a desired state from
/// a current state exist, which it does exactly when the desired state is
/// valid. A system in the current state to which all of that difference is
/// applied then reaches a state that the desired state, laid beside the
/// current one, verifies against.
#[verifier::rlimit(50)]
pub proof fn law_diff_round_trip(desired: NetworkStateView, current: NetworkStateView)
    requires
        desired.diff(current) is Ok,
    ensures
        desired.wf(),
        MergedNetworkStateView::laid_out(desired, current) is Ok,
        MergedNetworkStateView::laid_out(desired, current)->Ok_0.failure(
            current.with_applied(desired.diff(current)->Ok_0),
        ) is None,
{
    let m = MergedNetworkStateView::laid_out(desired, current)->Ok_0;
    let diff = desired.diff(current)->Ok_0;
    let reached = current.with_applied(diff);
    let ignored = crate::net_state::ignored_kernel_names(m.interfaces.ignored_ifaces);
    let des = desired.interfaces.ifaces;
    assert forall|i: int| 0 <= i < des.len() implies (#[trigger] des[i]).well_typed() by {
        lemma_well_typed(des, 0, i);
    }
    lemma_hostname_round_trip(desired.hostname, current.hostname);
    assert(m.hostname.failure(reached.hostname) is None);
    lemma_interfaces_round_trip(desired.interfaces, current.interfaces);
    assert(m.interfaces.failure(reached.interfaces) is None);
    lemma_routes_round_trip(desired.routes, current.routes, ignored);
    assert(m.routes.failure(reached.routes, ignored) is None);
    lemma_rules_round_trip(desired.rules, current.rules, ignored);
    assert(m.rules.failure(reached.rules, ignored) is None);
    lemma_dns_round_trip(desired.dns, current.dns);
    lemma_ovsdb_round_trip(desired.ovsdb, current.ovsdb);
    lemma_ovn_round_trip(desired.ovn, current.ovn);
}

/// Where every wanted entry is present, none is missing.
pub proof fn lemma_missing_none<V>(wanted: Seq<V>, present: Seq<V>)
    requires
        forall|i: int| 0 <= i < wanted.len() ==> present.contains(#[trigger] wanted[i]),
    ensures
        missing(wanted, present) == Seq::<V>::empty(),
    decreases wanted.len(),
{
    if wanted.len() > 0 {
        assert forall|i: int| 0 <= i < wanted.drop_last().len() implies present.contains(
            #[trigger] wanted.drop_last()[i],
        ) by {
            assert(wanted.drop_last()[i] == wanted[i]);
        }
        lemma_missing_none(wanted.drop_last(), present);
        assert(wanted.last() == wanted[wanted.len() - 1]);
    }
}

/// Of entries that have nothing to apply, nothing is to be applied.
pub proof fn lemma_nothing_to_apply(es: Seq<MergedInterfaceView>)
    requires
        forall|i: int| 0 <= i < es.len() ==> (#[trigger] es[i]).for_apply is None,
    ensures
        to_apply(es) == Seq::<InterfaceView>::empty(),
    decreases es.len(),
{
    if es.len() > 0 {
        assert forall|i: int| 0 <= i < es.drop_last().len() implies (
        #[trigger] es.drop_last()[i]).for_apply is None by {
            assert(es.drop_last()[i] == es[i]);
        }
        lemma_nothing_to_apply(es.drop_last());
        assert(es.last() == es[es.len() - 1]);
    }
}

/// Valid interfaces differ from themselves in nothing.
pub proof fn lemma_interfaces_self_diff(a: InterfacesView)
    requires
        a.wf(),
    ensures
        MergedInterfacesView::laid_out(a, a).diff() == (InterfacesView {
            ifaces: Seq::<InterfaceView>::empty(),
        }),
{
    let d = a.ifaces;
    let m0 = MergedInterfacesView::empty().with_desired(d, a);
    let m = MergedInterfacesView::laid_out(a, a);
    lemma_with_desired(MergedInterfacesView::empty(), d, d, a);
    lemma_with_current_only(m0, d, a, d, a);
    assert forall|e: MergedInterfaceView| accounted(e, d, a) implies e.for_apply is None by {
        if from_desired(e, d, a) {
            let j = choose|j: int|
                0 <= j < d.len() && e == MergedInterfaceView::of_desired(#[trigger] d[j], a);
            lemma_no_duplicate_positions(d, 0, j);
            lemma_meets_itself(d[j]);
            assert(a.find(d[j].base().name, d[j].base().iface_type) == Some(d[j]));
        }
    }
    assert forall|i: int| 0 <= i < m.kernel_ifaces.len() implies (
    #[trigger] m.kernel_ifaces[i]).for_apply is None by {
        assert(accounted(m.kernel_ifaces[i], d, a));
    }
    assert forall|i: int| 0 <= i < m.user_ifaces.len() implies (
    #[trigger] m.user_ifaces[i]).for_apply is None by {
        assert(accounted(m.user_ifaces[i], d, a));
    }
    lemma_nothing_to_apply(m.kernel_ifaces);
    lemma_nothing_to_apply(m.user_ifaces);
    assert(m.diff().ifaces =~= Seq::<InterfaceView>::empty());
}

/// A state differs from itself in nothing. Where the difference of a state
/// from itself exists, which it does exactly when the state is valid, it
/// is the state that states nothing.
#[verifier::rlimit(50)]
pub proof fn law_self_diff_is_empty(a: NetworkStateView)
    requires
        a.diff(a) is Ok,
    ensures
        a.wf(),
        a.diff(a) == Ok::<NetworkStateView, crate::error::NipartErrorView>(
            NetworkStateView::empty(),
        ),
{
    lemma_interfaces_self_diff(a.interfaces);
    let routes = listed(a.routes);
    assert forall|i: int| 0 <= i < routes.len() implies routes.contains(#[trigger] routes[i]) by {}
    lemma_missing_none(routes, routes);
    let rules = listed(a.rules);
    assert forall|i: int| 0 <= i < rules.len() implies rules.contains(#[trigger] rules[i]) by {}
    lemma_missing_none(rules, rules);
    match a.ovsdb {
        Some(o) => {
            lemma_section_matches_itself("external_ids"@, entries(o.external_ids), 0);
            lemma_section_matches_itself("other_config"@, entries(o.other_config), 0);
        },
        None => {},
    }
    let m = MergedNetworkStateView::laid_out(a, a)->Ok_0;
    assert(!m.ovsdb.is_changed);
    assert(!m.dns.is_changed());
    assert(!m.hostname.is_changed());
    assert(!m.ovn.is_changed());
    assert(m.routes.diff() is None);
    assert(m.rules.diff() is None);
    let d = a.diff(a)->Ok_0;
    assert(d.description =~= Seq::<char>::empty());
    assert(d =~= NetworkStateView::empty());
}

} // verus!
