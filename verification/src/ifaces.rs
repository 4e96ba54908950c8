//! Interfaces of all types and collections of them.

use crate::data::{dup_borrowed, Data};
use crate::error::{verification_failure_view, ErrorKind, NipartError, NipartErrorView};
use crate::iface::{
    BaseInterface, BaseInterfaceView, EthernetInterface, EthernetInterfaceView, InterfaceState,
    InterfaceType, UnknownInterface, UnknownInterfaceView, VlanInterface, VlanInterfaceView,
};
use crate::ovs_types::{OvsBridgeInterface, OvsBridgeInterfaceView, OvsInterface, OvsInterfaceView};
use vstd::prelude::*;

verus! {

/// An interface of one of the supported types.
#[derive(Debug, PartialEq)]
pub enum Interface {
    Ethernet(EthernetInterface),
    Vlan(VlanInterface),
    OvsBridge(OvsBridgeInterface),
    OvsInterface(OvsInterface),
    Unknown(UnknownInterface),
}

/// The mathematical value of a [`Interface`].
#[verifier::ext_equal]
pub enum InterfaceView {
    Ethernet(EthernetInterfaceView),
    Vlan(VlanInterfaceView),
    OvsBridge(OvsBridgeInterfaceView),
    OvsInterface(OvsInterfaceView),
    Unknown(UnknownInterfaceView),
}

impl DeepView for Interface {
    type V = InterfaceView;

    open spec fn deep_view(&self) -> InterfaceView {
        match self {
            Self::Ethernet(a0) => InterfaceView::Ethernet(a0.deep_view()),
            Self::Vlan(a0) => InterfaceView::Vlan(a0.deep_view()),
            Self::OvsBridge(a0) => InterfaceView::OvsBridge(a0.deep_view()),
            Self::OvsInterface(a0) => InterfaceView::OvsInterface(a0.deep_view()),
            Self::Unknown(a0) => InterfaceView::Unknown(a0.deep_view()),
        }
    }
}

impl View for Interface {
    type V = InterfaceView;

    open spec fn view(&self) -> InterfaceView {
        self.deep_view()
    }
}

impl Data for Interface {
    fn same(&self, other: &Self) -> (b: bool) {
        match (self, other) {
            (Self::Ethernet(a0), Self::Ethernet(b0)) => a0.same(b0),
            (Self::Vlan(a0), Self::Vlan(b0)) => a0.same(b0),
            (Self::OvsBridge(a0), Self::OvsBridge(b0)) => a0.same(b0),
            (Self::OvsInterface(a0), Self::OvsInterface(b0)) => a0.same(b0),
            (Self::Unknown(a0), Self::Unknown(b0)) => a0.same(b0),
            _ => false,
        }
    }

    fn dup(&self) -> (r: Self) {
        match self {
            Self::Ethernet(a0) => Self::Ethernet(a0.dup()),
            Self::Vlan(a0) => Self::Vlan(a0.dup()),
            Self::OvsBridge(a0) => Self::OvsBridge(a0.dup()),
            Self::OvsInterface(a0) => Self::OvsInterface(a0.dup()),
            Self::Unknown(a0) => Self::Unknown(a0.dup()),
        }
    }
}

/// The interfaces of a network state, in the order they were added.
#[derive(Debug, PartialEq)]
pub struct Interfaces {
    pub ifaces: Vec<Interface>,
}

/// The mathematical value of a [`Interfaces`].
#[verifier::ext_equal]
pub struct InterfacesView {
    pub ifaces: Seq<InterfaceView>,
}

impl DeepView for Interfaces {
    type V = InterfacesView;

    open spec fn deep_view(&self) -> InterfacesView {
        InterfacesView {
            ifaces: self.ifaces.deep_view(),
        }
    }
}

impl View for Interfaces {
    type V = InterfacesView;

    open spec fn view(&self) -> InterfacesView {
        self.deep_view()
    }
}

impl Data for Interfaces {
    fn same(&self, other: &Self) -> (b: bool) {
        self.ifaces.same(&other.ifaces)
    }

    fn dup(&self) -> (r: Self) {
        Interfaces {
            ifaces: self.ifaces.dup(),
        }
    }
}

/// One interface as desired, as found, and as worked out from both.
#[derive(Debug, PartialEq)]
pub struct MergedInterface {
    pub desired: Option<Interface>,
    pub current: Option<Interface>,
    /// The current interface updated with the desired one.
    pub merged: Interface,
    /// What plugins have to apply; `None` when nothing changes.
    pub for_apply: Option<Interface>,
    /// What the state after applying is compared with.
    pub for_verify: Option<Interface>,
}

/// The mathematical value of a [`MergedInterface`].
#[verifier::ext_equal]
pub struct MergedInterfaceView {
    pub desired: Option<InterfaceView>,
    pub current: Option<InterfaceView>,
    pub merged: InterfaceView,
    pub for_apply: Option<InterfaceView>,
    pub for_verify: Option<InterfaceView>,
}

impl DeepView for MergedInterface {
    type V = MergedInterfaceView;

    open spec fn deep_view(&self) -> MergedInterfaceView {
        MergedInterfaceView {
            desired: self.desired.deep_view(),
            current: self.current.deep_view(),
            merged: self.merged.deep_view(),
            for_apply: self.for_apply.deep_view(),
            for_verify: self.for_verify.deep_view(),
        }
    }
}

impl View for MergedInterface {
    type V = MergedInterfaceView;

    open spec fn view(&self) -> MergedInterfaceView {
        self.deep_view()
    }
}

impl Data for MergedInterface {
    fn same(&self, other: &Self) -> (b: bool) {
        self.desired.same(&other.desired)
            && self.current.same(&other.current)
            && self.merged.same(&other.merged)
            && self.for_apply.same(&other.for_apply)
            && self.for_verify.same(&other.for_verify)
    }

    fn dup(&self) -> (r: Self) {
        MergedInterface {
            desired: self.desired.dup(),
            current: self.current.dup(),
            merged: self.merged.dup(),
            for_apply: self.for_apply.dup(),
            for_verify: self.for_verify.dup(),
        }
    }
}

/// All interfaces named by the desired or the current state.
#[derive(Debug, PartialEq)]
pub struct MergedInterfaces {
    /// Interfaces that live in the kernel, each name once.
    pub kernel_ifaces: Vec<MergedInterface>,
    /// Interfaces that live in user space, each name and type once.
    pub user_ifaces: Vec<MergedInterface>,
    /// Interfaces that neither apply nor verify may touch.
    pub ignored_ifaces: Vec<(String, InterfaceType)>,
}

/// The mathematical value of a [`MergedInterfaces`].
#[verifier::ext_equal]
pub struct MergedInterfacesView {
    pub kernel_ifaces: Seq<MergedInterfaceView>,
    pub user_ifaces: Seq<MergedInterfaceView>,
    pub ignored_ifaces: Seq<(Seq<char>, InterfaceType)>,
}

impl DeepView for MergedInterfaces {
    type V = MergedInterfacesView;

    open spec fn deep_view(&self) -> MergedInterfacesView {
        MergedInterfacesView {
            kernel_ifaces: self.kernel_ifaces.deep_view(),
            user_ifaces: self.user_ifaces.deep_view(),
            ignored_ifaces: self.ignored_ifaces.deep_view(),
        }
    }
}

impl View for MergedInterfaces {
    type V = MergedInterfacesView;

    open spec fn view(&self) -> MergedInterfacesView {
        self.deep_view()
    }
}

impl Data for MergedInterfaces {
    fn same(&self, other: &Self) -> (b: bool) {
        self.kernel_ifaces.same(&other.kernel_ifaces)
            && self.user_ifaces.same(&other.user_ifaces)
            && self.ignored_ifaces.same(&other.ignored_ifaces)
    }

    fn dup(&self) -> (r: Self) {
        MergedInterfaces {
            kernel_ifaces: self.kernel_ifaces.dup(),
            user_ifaces: self.user_ifaces.dup(),
            ignored_ifaces: self.ignored_ifaces.dup(),
        }
    }
}

impl InterfaceView {
    /// The properties that the interface shares with those of other types.
    pub open spec fn base(self) -> BaseInterfaceView {
        match self {
            InterfaceView::Ethernet(i) => i.base,
            InterfaceView::Vlan(i) => i.base,
            InterfaceView::OvsBridge(i) => i.base,
            InterfaceView::OvsInterface(i) => i.base,
            InterfaceView::Unknown(i) => i.base,
        }
    }

    /// Whether the interface is to be removed.
    pub open spec fn is_absent(self) -> bool {
        self.base().state == InterfaceState::Absent
    }

    /// Whether the interface goes by `name` and lives where interfaces of
    /// type `ty` live: for a user space type, it has that very type; for a
    /// kernel type, it has any kernel type.
    pub open spec fn goes_by(self, name: Seq<char>, ty: InterfaceType) -> bool {
        &&& self.base().name == name
        &&& if ty.userspace() {
            self.base().iface_type == ty
        } else {
            !self.base().iface_type.userspace()
        }
    }

    /// The interfaces attached to this one, where it is a bridge that
    /// states its ports.
    pub open spec fn ports(self) -> Option<Seq<Seq<char>>> {
        match self {
            InterfaceView::OvsBridge(b) => b.ports(),
            _ => None,
        }
    }

    /// The interface without the ports named in `gone`.
    pub open spec fn without_ports(self, gone: Seq<Seq<char>>) -> InterfaceView {
        match self {
            InterfaceView::OvsBridge(b) => InterfaceView::OvsBridge(b.without_ports(gone)),
            _ => self,
        }
    }

    /// The interface prepared for comparison.
    pub open spec fn sanitized(self) -> InterfaceView {
        match self {
            InterfaceView::OvsBridge(b) => InterfaceView::OvsBridge(b.sanitized()),
            _ => self,
        }
    }

    /// The interface after merging `other` into it. Settings that `other`
    /// states replace what was there; an interface of another kind replaces
    /// this one altogether.
    pub open spec fn updated(self, other: InterfaceView) -> InterfaceView {
        match (self, other) {
            (InterfaceView::Ethernet(a), InterfaceView::Ethernet(b)) => InterfaceView::Ethernet(
                EthernetInterfaceView {
                    base: a.base.updated(b.base),
                    veth: if b.veth is Some {
                        b.veth
                    } else {
                        a.veth
                    },
                },
            ),
            (InterfaceView::Vlan(a), InterfaceView::Vlan(b)) => InterfaceView::Vlan(
                VlanInterfaceView {
                    base: a.base.updated(b.base),
                    vlan: if b.vlan is Some {
                        b.vlan
                    } else {
                        a.vlan
                    },
                },
            ),
            (InterfaceView::OvsBridge(a), InterfaceView::OvsBridge(b)) => InterfaceView::OvsBridge(
                OvsBridgeInterfaceView { base: a.base.updated(b.base), ..a.updated(b) },
            ),
            (
                InterfaceView::OvsInterface(a),
                InterfaceView::OvsInterface(b),
            ) => InterfaceView::OvsInterface(
                OvsInterfaceView { base: a.base.updated(b.base), ..a.updated(b) },
            ),
            (InterfaceView::Unknown(a), InterfaceView::Unknown(b)) => InterfaceView::Unknown(
                UnknownInterfaceView { base: a.base.updated(b.base) },
            ),
            _ => other,
        }
    }

    /// Whether `current` is of the same kind as this desired interface and
    /// holds every setting that it states. Of a bridge the ports are
    /// compared; whether it tolerates extra patch ports is a word on the
    /// comparison, not a setting.
    pub open spec fn satisfied_by(self, current: InterfaceView) -> bool {
        match (self, current) {
            (InterfaceView::Ethernet(d), InterfaceView::Ethernet(c)) => {
                &&& d.base.satisfied_by(c.base)
                &&& (d.veth is Some ==> d.veth == c.veth)
            },
            (InterfaceView::Vlan(d), InterfaceView::Vlan(c)) => {
                &&& d.base.satisfied_by(c.base)
                &&& (d.vlan is Some ==> d.vlan == c.vlan)
            },
            (InterfaceView::OvsBridge(d), InterfaceView::OvsBridge(c)) => {
                &&& d.base.satisfied_by(c.base)
                &&& match d.bridge {
                    None => true,
                    Some(db) => match c.bridge {
                        None => false,
                        Some(cb) => db.ports is Some ==> db.ports == cb.ports,
                    },
                }
            },
            (InterfaceView::OvsInterface(d), InterfaceView::OvsInterface(c)) => {
                &&& d.base.satisfied_by(c.base)
                &&& (d.patch is Some ==> d.patch == c.patch)
                &&& (d.dpdk is Some ==> d.dpdk == c.dpdk)
            },
            (InterfaceView::Unknown(d), InterfaceView::Unknown(c)) => d.base.satisfied_by(c.base),
            _ => false,
        }
    }
}

impl Interface {
    /// The properties that the interface shares with those of other types.
    pub fn base_iface(&self) -> (b: &BaseInterface)
        ensures
            b@ == self@.base(),
    {
        match self {
            Interface::Ethernet(i) => &i.base,
            Interface::Vlan(i) => &i.base,
            Interface::OvsBridge(i) => &i.base,
            Interface::OvsInterface(i) => &i.base,
            Interface::Unknown(i) => &i.base,
        }
    }

    /// The name of the interface.
    pub fn name(&self) -> (n: &str)
        ensures
            n@ == self@.base().name,
    {
        self.base_iface().name.as_str()
    }

    /// The type of the interface.
    pub fn iface_type(&self) -> (t: InterfaceType)
        ensures
            t == self@.base().iface_type,
    {
        self.base_iface().iface_type
    }

    /// Whether the interface is to be removed.
    pub fn is_absent(&self) -> (b: bool)
        ensures
            b == self@.is_absent(),
    {
        match self.base_iface().state {
            InterfaceState::Absent => true,
            _ => false,
        }
    }

    /// Whether the interface goes by `name` and lives where interfaces of
    /// type `ty` live.
    pub fn goes_by(&self, name: &String, ty: InterfaceType) -> (b: bool)
        ensures
            b == self@.goes_by(name@, ty),
    {
        let base = self.base_iface();
        base.name.same(name) && if ty.is_userspace() {
            base.iface_type == ty
        } else {
            !base.iface_type.is_userspace()
        }
    }

    /// The names of the interfaces attached to this one, where it is a
    /// bridge that states its ports.
    pub fn ports(&self) -> (r: Option<Vec<String>>)
        ensures
            r.deep_view() == self@.ports(),
    {
        match self {
            Interface::OvsBridge(b) => b.ports(),
            _ => None,
        }
    }

    /// Detaches the ports named in `gone`.
    pub fn remove_ports(&mut self, gone: &Vec<String>)
        ensures
            final(self)@ == old(self)@.without_ports(gone.deep_view()),
    {
        let replaced = match &*self {
            Interface::OvsBridge(b) => {
                let mut b = b.dup();
                b.remove_ports(gone);
                Some(Interface::OvsBridge(b))
            },
            _ => None,
        };
        if let Some(r) = replaced {
            *self = r;
        }
    }

    /// Prepares an interface found in the current state for comparison.
    pub fn sanitize_current_for_verify(&mut self)
        ensures
            final(self)@ == old(self)@.sanitized(),
    {
        let replaced = match &*self {
            Interface::OvsBridge(b) => {
                let mut b = b.dup();
                b.sanitize_current_for_verify();
                Some(Interface::OvsBridge(b))
            },
            _ => None,
        };
        if let Some(r) = replaced {
            *self = r;
        }
    }

    /// Merges `other` into this interface.
    #[verifier::rlimit(50)]
    pub fn update(&mut self, other: &Interface)
        ensures
            final(self)@ == old(self)@.updated(other@),
    {
        let merged = match (&*self, other) {
            (Interface::Ethernet(a), Interface::Ethernet(b)) => {
                let mut base = a.base.dup();
                base.update(&b.base);
                let veth = if b.veth.is_some() {
                    b.veth.dup()
                } else {
                    a.veth.dup()
                };
                Interface::Ethernet(EthernetInterface { base, veth })
            },
            (Interface::Vlan(a), Interface::Vlan(b)) => {
                let mut base = a.base.dup();
                base.update(&b.base);
                let vlan = if b.vlan.is_some() {
                    b.vlan.dup()
                } else {
                    a.vlan.dup()
                };
                Interface::Vlan(VlanInterface { base, vlan })
            },
            (Interface::OvsBridge(a), Interface::OvsBridge(b)) => {
                let mut bridge = a.dup();
                bridge.update_ovs_bridge(b);
                bridge.base.update(&b.base);
                Interface::OvsBridge(bridge)
            },
            (Interface::OvsInterface(a), Interface::OvsInterface(b)) => {
                let mut iface = a.dup();
                iface.update_ovs_iface(b);
                iface.base.update(&b.base);
                Interface::OvsInterface(iface)
            },
            (Interface::Unknown(a), Interface::Unknown(b)) => {
                let mut base = a.base.dup();
                base.update(&b.base);
                Interface::Unknown(UnknownInterface { base })
            },
            _ => other.dup(),
        };
        *self = merged;
    }

    /// Whether `current` is of the same kind as this desired interface and
    /// holds every setting that it states.
    #[verifier::rlimit(50)]
    pub fn is_satisfied_by(&self, current: &Interface) -> (b: bool)
        ensures
            b == self@.satisfied_by(current@),
    {
        match (self, current) {
            (Interface::Ethernet(d), Interface::Ethernet(c)) => {
                d.base.is_satisfied_by(&c.base) && (d.veth.is_none() || d.veth.same(&c.veth))
            },
            (Interface::Vlan(d), Interface::Vlan(c)) => {
                d.base.is_satisfied_by(&c.base) && (d.vlan.is_none() || d.vlan.same(&c.vlan))
            },
            (Interface::OvsBridge(d), Interface::OvsBridge(c)) => {
                d.base.is_satisfied_by(&c.base) && match &d.bridge {
                    None => true,
                    Some(db) => match &c.bridge {
                        None => false,
                        Some(cb) => db.ports.is_none() || db.ports.same(&cb.ports),
                    },
                }
            },
            (Interface::OvsInterface(d), Interface::OvsInterface(c)) => {
                d.base.is_satisfied_by(&c.base) && (d.patch.is_none() || d.patch.same(&c.patch))
                    && (d.dpdk.is_none() || d.dpdk.same(&c.dpdk))
            },
            (Interface::Unknown(d), Interface::Unknown(c)) => d.base.is_satisfied_by(&c.base),
            _ => false,
        }
    }
}

/// The index, at or after `from`, of the first interface that goes by
/// `name` where type `ty` lives; the length of the list when there is none.
pub open spec fn iface_position(
    ifaces: Seq<InterfaceView>,
    name: Seq<char>,
    ty: InterfaceType,
    from: int,
) -> int
    decreases ifaces.len() - from,
{
    if from < 0 || from >= ifaces.len() {
        ifaces.len() as int
    } else if ifaces[from].goes_by(name, ty) {
        from
    } else {
        iface_position(ifaces, name, ty, from + 1)
    }
}

/// `iface_position` finds an interface that goes by the name, or runs to the
/// end.
pub proof fn lemma_iface_position(
    ifaces: Seq<InterfaceView>,
    name: Seq<char>,
    ty: InterfaceType,
    from: int,
)
    requires
        0 <= from <= ifaces.len(),
    ensures
        from <= iface_position(ifaces, name, ty, from) <= ifaces.len(),
        iface_position(ifaces, name, ty, from) < ifaces.len() ==> ifaces[iface_position(
            ifaces,
            name,
            ty,
            from,
        )].goes_by(name, ty),
        forall|j: int|
            from <= j < iface_position(ifaces, name, ty, from) ==> !(#[trigger] ifaces[j]).goes_by(
                name,
                ty,
            ),
    decreases ifaces.len() - from,
{
    if from < ifaces.len() && !ifaces[from].goes_by(name, ty) {
        lemma_iface_position(ifaces, name, ty, from + 1);
    }
}

/// A list of interfaces after merging one more into it: into the interface
/// that goes by the same name, or at the end when there is none.
pub open spec fn merged_one(ifaces: Seq<InterfaceView>, other: InterfaceView) -> Seq<
    InterfaceView,
> {
    let p = iface_position(ifaces, other.base().name, other.base().iface_type, 0);
    if p < ifaces.len() {
        ifaces.update(p, ifaces[p].updated(other))
    } else {
        ifaces.push(other)
    }
}

/// A list of interfaces after merging `others` into it, first to last.
pub open spec fn merged_all(ifaces: Seq<InterfaceView>, others: Seq<InterfaceView>) -> Seq<
    InterfaceView,
>
    decreases others.len(),
{
    if others.len() == 0 {
        ifaces
    } else {
        merged_one(merged_all(ifaces, others.drop_last()), others.last())
    }
}

impl InterfacesView {
    /// The first interface that goes by `name` where type `ty` lives.
    pub open spec fn find(self, name: Seq<char>, ty: InterfaceType) -> Option<InterfaceView> {
        let p = iface_position(self.ifaces, name, ty, 0);
        if p < self.ifaces.len() {
            Some(self.ifaces[p])
        } else {
            None
        }
    }

    /// These interfaces after merging `other` into them.
    pub open spec fn updated(self, other: InterfacesView) -> InterfacesView {
        InterfacesView { ifaces: merged_all(self.ifaces, other.ifaces) }
    }
}

impl Interfaces {
    /// No interfaces.
    pub fn new() -> (r: Self)
        ensures
            r@.ifaces == Seq::<InterfaceView>::empty(),
            r@.wf(),
    {
        let r = Interfaces { ifaces: Vec::new() };
        assert(r@.ifaces =~= Seq::empty());
        r
    }

    /// Adds an interface at the end.
    pub fn push(&mut self, iface: Interface)
        ensures
            final(self)@.ifaces == old(self)@.ifaces.push(iface@),
    {
        self.ifaces.push(iface);
        assert(self@.ifaces =~= old(self)@.ifaces.push(iface@));
    }

    /// The index of the first interface that goes by `name` where type `ty`
    /// lives; the number of interfaces when there is none.
    pub fn position(&self, name: &String, ty: InterfaceType) -> (p: usize)
        ensures
            p == iface_position(self@.ifaces, name@, ty, 0),
            p <= self.ifaces.len(),
    {
        let mut i: usize = 0;
        while i < self.ifaces.len()
            invariant
                i <= self.ifaces.len(),
                iface_position(self@.ifaces, name@, ty, 0) == iface_position(
                    self@.ifaces,
                    name@,
                    ty,
                    i as int,
                ),
            decreases self.ifaces.len() - i,
        {
            if self.ifaces[i].goes_by(name, ty) {
                return i;
            }
            i += 1;
        }
        i
    }

    /// The first interface that goes by `name` where type `ty` lives.
    pub fn get_iface(&self, name: &String, ty: InterfaceType) -> (r: Option<&Interface>)
        ensures
            r.deep_view() == self@.find(name@, ty),
    {
        let p = self.position(name, ty);
        if p < self.ifaces.len() {
            Some(&self.ifaces[p])
        } else {
            None
        }
    }

    /// Merges one interface into these.
    pub fn update_iface(&mut self, other: &Interface)
        ensures
            final(self)@.ifaces == merged_one(old(self)@.ifaces, other@),
    {
        let p = self.position(&other.base_iface().name, other.iface_type());
        if p < self.ifaces.len() {
            let mut merged = self.ifaces[p].dup();
            merged.update(other);
            self.ifaces.set(p, merged);
            assert(self@.ifaces =~= old(self)@.ifaces.update(
                p as int,
                old(self)@.ifaces[p as int].updated(other@),
            ));
        } else {
            self.ifaces.push(other.dup());
            assert(self@.ifaces =~= old(self)@.ifaces.push(other@));
        }
    }

    /// Merges `other` into these interfaces, first to last. Valid
    /// interfaces stay valid when valid interfaces are merged into them.
    pub fn update(&mut self, other: &Interfaces)
        ensures
            final(self)@ == old(self)@.updated(other@),
            old(self)@.wf() && other@.wf() ==> final(self)@.wf(),
    {
        proof {
            if self@.wf() && other@.wf() {
                crate::validity::lemma_updated_valid(self@, other@);
            }
        }
        let mut i: usize = 0;
        assert(other@.ifaces.take(0) =~= Seq::empty());
        while i < other.ifaces.len()
            invariant
                i <= other.ifaces.len(),
                self@.ifaces == merged_all(old(self)@.ifaces, other@.ifaces.take(i as int)),
            decreases other.ifaces.len() - i,
        {
            assert(other@.ifaces.take(i + 1).drop_last() =~= other@.ifaces.take(i as int));
            assert(other@.ifaces.take(i + 1).last() == other.ifaces[i as int]@);
            self.update_iface(&other.ifaces[i]);
            i += 1;
        }
        assert(other@.ifaces.take(other.ifaces.len() as int) =~= other@.ifaces);
    }
}

impl InterfaceState {
    /// The word a state is shown as.
    pub open spec fn name_spec(self) -> Seq<char> {
        match self {
            InterfaceState::Up => "up"@,
            InterfaceState::Down => "down"@,
            InterfaceState::Absent => "absent"@,
            InterfaceState::Ignore => "ignore"@,
            InterfaceState::Unknown => "unknown"@,
        }
    }

    /// The word this state is shown as.
    pub fn name(&self) -> (s: &'static str)
        ensures
            s@ == self.name_spec(),
    {
        match self {
            InterfaceState::Up => "up",
            InterfaceState::Down => "down",
            InterfaceState::Absent => "absent",
            InterfaceState::Ignore => "ignore",
            InterfaceState::Unknown => "unknown",
        }
    }
}

impl InterfaceView {
    /// Whether what was found meets this desired interface: an interface to
    /// be removed is met when none is found or the one found is marked
    /// absent, any other when the one found holds every setting it states.
    pub open spec fn met_by(self, found: Option<InterfaceView>) -> bool {
        match found {
            Some(c) => if self.is_absent() {
                c.is_absent()
            } else {
                self.satisfied_by(c)
            },
            None => self.is_absent(),
        }
    }

    /// The failure that reports that what was found does not meet this
    /// desired interface: it names the interface, its desired state and the
    /// state found.
    pub open spec fn failure(self, found: Option<InterfaceView>) -> NipartErrorView {
        verification_failure_view(
            "interface."@ + self.base().name,
            self.base().state.name_spec(),
            match found {
                Some(c) => c.base().state.name_spec(),
                None => "null"@,
            },
        )
    }
}

impl Interface {
    /// Whether what was found meets this desired interface.
    pub fn is_met_by(&self, found: Option<&Interface>) -> (b: bool)
        ensures
            b == self@.met_by(found.deep_view()),
    {
        match found {
            Some(c) => if self.is_absent() {
                c.is_absent()
            } else {
                self.is_satisfied_by(c)
            },
            None => self.is_absent(),
        }
    }

    /// Reports that what was found does not meet this desired interface.
    pub fn verification_failure(&self, found: Option<&Interface>) -> (e: NipartError)
        ensures
            e@ == self@.failure(found.deep_view()),
    {
        let mut reference = String::from_str("interface.");
        reference.append(self.name());
        let found_state = match found {
            Some(c) => c.base_iface().state.name(),
            None => "null",
        };
        NipartError::verification_failure(
            reference.as_str(),
            self.base_iface().state.name(),
            found_state,
        )
    }
}

impl MergedInterfaceView {
    /// A desired interface beside its current counterpart. Nothing is to be
    /// applied when the interface is ignored or already met, and nothing to
    /// be compared when it is ignored.
    pub open spec fn of_desired(d: InterfaceView, current: InterfacesView) -> MergedInterfaceView {
        let cur = current.find(d.base().name, d.base().iface_type);
        let ignore = d.base().state == InterfaceState::Ignore;
        MergedInterfaceView {
            desired: Some(d),
            current: cur,
            merged: match cur {
                Some(c) => c.updated(d),
                None => d,
            },
            for_apply: if ignore || d.met_by(cur) {
                None
            } else {
                Some(d)
            },
            for_verify: if ignore {
                None
            } else {
                Some(d)
            },
        }
    }

    /// A current interface that the desired state does not speak of.
    pub open spec fn of_current(c: InterfaceView) -> MergedInterfaceView {
        MergedInterfaceView {
            desired: None,
            current: Some(c),
            merged: c,
            for_apply: None,
            for_verify: None,
        }
    }

    /// Whether neither apply nor verify may touch the interface.
    pub open spec fn is_ignored(self) -> bool {
        match self.desired {
            Some(d) => d.base().state == InterfaceState::Ignore,
            None => self.merged.base().state == InterfaceState::Ignore,
        }
    }

    /// Whether there is something to apply.
    pub open spec fn is_changed(self) -> bool {
        self.for_apply is Some
    }
}

impl MergedInterface {
    /// Lays a desired interface beside its current counterpart.
    #[verifier::rlimit(50)]
    pub fn new_desired(d: Interface, current: &Interfaces) -> (r: Self)
        ensures
            r@ == MergedInterfaceView::of_desired(d@, current@),
    {
        let cur = current.get_iface(&d.base_iface().name, d.iface_type());
        let ignore = match d.base_iface().state {
            InterfaceState::Ignore => true,
            _ => false,
        };
        let merged = match cur {
            Some(c) => {
                let mut m = c.dup();
                m.update(&d);
                m
            },
            None => d.dup(),
        };
        let for_apply = if ignore || d.is_met_by(cur) {
            None
        } else {
            Some(d.dup())
        };
        let for_verify = if ignore {
            None
        } else {
            Some(d.dup())
        };
        MergedInterface { desired: Some(d), current: dup_borrowed(cur), merged, for_apply, for_verify }
    }

    /// Wraps a current interface that the desired state does not speak of.
    pub fn new_current(c: Interface) -> (r: Self)
        ensures
            r@ == MergedInterfaceView::of_current(c@),
    {
        MergedInterface {
            desired: None,
            merged: c.dup(),
            current: Some(c),
            for_apply: None,
            for_verify: None,
        }
    }

    /// Whether neither apply nor verify may touch the interface.
    pub fn is_ignored(&self) -> (b: bool)
        ensures
            b == self@.is_ignored(),
    {
        let state = match &self.desired {
            Some(d) => d.base_iface().state,
            None => self.merged.base_iface().state,
        };
        match state {
            InterfaceState::Ignore => true,
            _ => false,
        }
    }

    /// Whether there is something to apply.
    pub fn is_changed(&self) -> (b: bool)
        ensures
            b == self@.is_changed(),
    {
        self.for_apply.is_some()
    }
}

/// The index, at or after `from`, of the first interface that is not the
/// first of the list to go by its name; the length of the list when every
/// interface is.
pub open spec fn first_duplicate(ifaces: Seq<InterfaceView>, from: int) -> int
    decreases ifaces.len() - from,
{
    if from < 0 || from >= ifaces.len() {
        ifaces.len() as int
    } else if iface_position(ifaces, ifaces[from].base().name, ifaces[from].base().iface_type, 0)
        != from {
        from
    } else {
        first_duplicate(ifaces, from + 1)
    }
}

/// The error for a desired state that names an interface twice.
pub open spec fn duplicate_view(name: Seq<char>) -> NipartErrorView {
    NipartErrorView {
        kind: ErrorKind::InvalidArgument,
        msg: "Interface '"@ + name + "' is desired more than once"@,
    }
}

/// The index, at or after `from`, of the first interface whose type does
/// not fit its kind; the length of the list when every type fits.
pub open spec fn first_mistyped(ifaces: Seq<InterfaceView>, from: int) -> int
    decreases ifaces.len() - from,
{
    if from < 0 || from >= ifaces.len() {
        ifaces.len() as int
    } else if !ifaces[from].well_typed() {
        from
    } else {
        first_mistyped(ifaces, from + 1)
    }
}

/// The error for a bridge of Open vSwitch that has another type.
pub open spec fn mistyped_view(name: Seq<char>) -> NipartErrorView {
    NipartErrorView {
        kind: ErrorKind::InvalidArgument,
        msg: "Interface '"@ + name + "' is an Open vSwitch bridge but has another type"@,
    }
}

/// Where no interface at or after `from` is mistyped, each such interface
/// is well typed.
pub proof fn lemma_well_typed(ifaces: Seq<InterfaceView>, from: int, i: int)
    requires
        0 <= from <= i < ifaces.len(),
        first_mistyped(ifaces, from) >= ifaces.len(),
    ensures
        ifaces[i].well_typed(),
    decreases i - from,
{
    if from < i {
        lemma_well_typed(ifaces, from + 1, i);
    }
}

impl InterfaceView {
    /// Whether the type of the interface fits its kind, as far as bridges
    /// of Open vSwitch go: such a bridge has the type of one.
    pub open spec fn well_typed(self) -> bool {
        self is OvsBridge ==> self.base().iface_type == InterfaceType::OvsBridge
    }
}

impl InterfacesView {
    /// What keeps these interfaces from being valid, as an error: the
    /// first interface that is not the first to go by its name or, where
    /// there is none, the first bridge of Open vSwitch of another type.
    /// `None` for valid interfaces.
    pub open spec fn invalid(self) -> Option<NipartErrorView> {
        let dup = first_duplicate(self.ifaces, 0);
        let odd = first_mistyped(self.ifaces, 0);
        if dup < self.ifaces.len() {
            Some(duplicate_view(self.ifaces[dup].base().name))
        } else if odd < self.ifaces.len() {
            Some(mistyped_view(self.ifaces[odd].base().name))
        } else {
            None
        }
    }

    /// Whether the interfaces are valid: each name is given once where it
    /// lives, as in a map from names to interfaces, and every bridge of
    /// Open vSwitch has the type of one.
    pub open spec fn wf(self) -> bool {
        self.invalid() is None
    }
}

impl Interfaces {
    /// Checks that the interfaces are valid. Fails with `InvalidArgument`
    /// for the first fault found.
    pub fn validate(&self) -> (r: Result<(), NipartError>)
        ensures
            match self@.invalid() {
                Some(e) => r is Err && r->Err_0@ == e,
                None => r is Ok,
            },
    {
        let mut j: usize = 0;
        while j < self.ifaces.len()
            invariant
                j <= self.ifaces.len(),
                first_duplicate(self@.ifaces, 0) == first_duplicate(self@.ifaces, j as int),
            decreases self.ifaces.len() - j,
        {
            let iface = &self.ifaces[j];
            if self.position(&iface.base_iface().name, iface.iface_type()) != j {
                let mut msg = String::from_str("Interface '");
                msg.append(iface.name());
                msg.append("' is desired more than once");
                return Err(NipartError::new(ErrorKind::InvalidArgument, msg));
            }
            j += 1;
        }
        let mut k: usize = 0;
        while k < self.ifaces.len()
            invariant
                k <= self.ifaces.len(),
                first_duplicate(self@.ifaces, 0) >= self@.ifaces.len(),
                first_mistyped(self@.ifaces, 0) == first_mistyped(self@.ifaces, k as int),
            decreases self.ifaces.len() - k,
        {
            if let Interface::OvsBridge(b) = &self.ifaces[k] {
                let typed = match b.base.iface_type {
                    InterfaceType::OvsBridge => true,
                    _ => false,
                };
                if !typed {
                    let mut msg = String::from_str("Interface '");
                    msg.append(b.base.name.as_str());
                    msg.append("' is an Open vSwitch bridge but has another type");
                    return Err(NipartError::new(ErrorKind::InvalidArgument, msg));
                }
            }
            k += 1;
        }
        Ok(())
    }

    /// Whether the interfaces are valid.
    pub fn is_wf(&self) -> (b: bool)
        ensures
            b == self@.wf(),
    {
        self.validate().is_ok()
    }
}

impl MergedInterfacesView {
    /// No interfaces.
    pub open spec fn empty() -> MergedInterfacesView {
        MergedInterfacesView {
            kernel_ifaces: Seq::empty(),
            user_ifaces: Seq::empty(),
            ignored_ifaces: Seq::empty(),
        }
    }

    /// These interfaces with one more, put with the kernel or the user
    /// space interfaces by its type and noted where it is ignored.
    pub open spec fn with(self, e: MergedInterfaceView) -> MergedInterfacesView {
        let base = e.merged.base();
        MergedInterfacesView {
            kernel_ifaces: if base.iface_type.userspace() {
                self.kernel_ifaces
            } else {
                self.kernel_ifaces.push(e)
            },
            user_ifaces: if base.iface_type.userspace() {
                self.user_ifaces.push(e)
            } else {
                self.user_ifaces
            },
            ignored_ifaces: if e.is_ignored() {
                self.ignored_ifaces.push((base.name, base.iface_type))
            } else {
                self.ignored_ifaces
            },
        }
    }

    /// These interfaces with each of `desired`, beside its counterpart in
    /// `current`, added first to last.
    pub open spec fn with_desired(
        self,
        desired: Seq<InterfaceView>,
        current: InterfacesView,
    ) -> MergedInterfacesView
        decreases desired.len(),
    {
        if desired.len() == 0 {
            self
        } else {
            self.with_desired(desired.drop_last(), current).with(
                MergedInterfaceView::of_desired(desired.last(), current),
            )
        }
    }

    /// These interfaces with each of `found` that `desired` does not speak
    /// of, added first to last.
    pub open spec fn with_current_only(
        self,
        found: Seq<InterfaceView>,
        desired: InterfacesView,
    ) -> MergedInterfacesView
        decreases found.len(),
    {
        if found.len() == 0 {
            self
        } else {
            let before = self.with_current_only(found.drop_last(), desired);
            if desired.find(found.last().base().name, found.last().base().iface_type) is None {
                before.with(MergedInterfaceView::of_current(found.last()))
            } else {
                before
            }
        }
    }

    /// The desired interfaces laid beside the current ones: first those
    /// that are desired, then the current ones that are not spoken of.
    pub open spec fn laid_out(
        desired: InterfacesView,
        current: InterfacesView,
    ) -> MergedInterfacesView {
        MergedInterfacesView::empty().with_desired(desired.ifaces, current).with_current_only(
            current.ifaces,
            desired,
        )
    }

    /// What there is to apply: the interfaces that change, those of the
    /// kernel before those of user space.
    pub open spec fn diff(self) -> InterfacesView {
        InterfacesView { ifaces: to_apply(self.kernel_ifaces) + to_apply(self.user_ifaces) }
    }

    /// The first interface to be compared that `current` does not meet, as
    /// a failure. Bridges that tolerate extra patch ports are compared
    /// without them, and missing database settings of a bond count as
    /// empty on both sides.
    pub open spec fn failure(self, current: InterfacesView) -> Option<NipartErrorView> {
        let ready = self.ready_for_extra_patch_ports();
        let cur = self.current_without_extra_patch_ports(current).sanitized();
        let first = unmet(ready.kernel_ifaces, cur, 0);
        if first is Some {
            first
        } else {
            unmet(ready.user_ifaces, cur, 0)
        }
    }
}

impl InterfacesView {
    /// These interfaces, each prepared for comparison.
    pub open spec fn sanitized(self) -> InterfacesView {
        InterfacesView { ifaces: self.ifaces.map_values(|i: InterfaceView| i.sanitized()) }
    }
}

/// What there is to apply of a list of interfaces, in their order.
pub open spec fn to_apply(entries: Seq<MergedInterfaceView>) -> Seq<InterfaceView>
    decreases entries.len(),
{
    if entries.len() == 0 {
        Seq::empty()
    } else {
        let rest = to_apply(entries.drop_last());
        match entries.last().for_apply {
            Some(a) => rest.push(a),
            None => rest,
        }
    }
}

/// The first interface of a list, at or after `from`, that is to be
/// compared and that `current` does not meet, as a failure.
pub open spec fn unmet(
    entries: Seq<MergedInterfaceView>,
    current: InterfacesView,
    from: int,
) -> Option<NipartErrorView>
    decreases entries.len() - from,
{
    if from < 0 || from >= entries.len() {
        None
    } else {
        match entries[from].for_verify {
            Some(d) => {
                let found = current.find(d.base().name, d.base().iface_type);
                if d.sanitized().met_by(found) {
                    unmet(entries, current, from + 1)
                } else {
                    Some(d.failure(found))
                }
            },
            None => unmet(entries, current, from + 1),
        }
    }
}

/// Copies what there is to apply of a list of interfaces onto `out`.
fn push_to_apply(entries: &Vec<MergedInterface>, out: &mut Vec<Interface>)
    ensures
        final(out).deep_view() == old(out).deep_view() + to_apply(entries.deep_view()),
{
    let mut i: usize = 0;
    assert(entries.deep_view().take(0) =~= Seq::empty());
    assert(out.deep_view() =~= old(out).deep_view() + Seq::<InterfaceView>::empty());
    while i < entries.len()
        invariant
            i <= entries.len(),
            out.deep_view() == old(out).deep_view() + to_apply(entries.deep_view().take(i as int)),
        decreases entries.len() - i,
    {
        let ghost before = out.deep_view();
        assert(entries.deep_view().take(i + 1).drop_last() =~= entries.deep_view().take(i as int));
        assert(entries.deep_view().take(i + 1).last() == entries[i as int]@);
        if let Some(a) = &entries[i].for_apply {
            out.push(a.dup());
            assert(out.deep_view() =~= before.push(a@));
            assert(out.deep_view() =~= old(out).deep_view() + to_apply(
                entries.deep_view().take(i + 1),
            ));
        }
        i += 1;
    }
    assert(entries.deep_view().take(entries.len() as int) =~= entries.deep_view());
}

/// Compares the interfaces of a list that are to be compared with what
/// `current` holds.
fn verify_entries(entries: &Vec<MergedInterface>, current: &Interfaces) -> (r: Result<
    (),
    NipartError,
>)
    ensures
        match unmet(entries.deep_view(), current@, 0) {
            None => r is Ok,
            Some(e) => r is Err && r->Err_0@ == e,
        },
{
    let mut i: usize = 0;
    while i < entries.len()
        invariant
            i <= entries.len(),
            unmet(entries.deep_view(), current@, 0) == unmet(entries.deep_view(), current@, i as int),
        decreases entries.len() - i,
    {
        if let Some(d) = &entries[i].for_verify {
            let found = current.get_iface(&d.base_iface().name, d.iface_type());
            let mut wanted = d.dup();
            wanted.sanitize_current_for_verify();
            if !wanted.is_met_by(found) {
                return Err(d.verification_failure(found));
            }
        }
        i += 1;
    }
    Ok(())
}

impl Interfaces {
    /// Prepares every interface for comparison.
    pub fn sanitize_current_for_verify(&mut self)
        ensures
            final(self)@ == old(self)@.sanitized(),
    {
        let mut out: Vec<Interface> = Vec::new();
        let mut i: usize = 0;
        while i < self.ifaces.len()
            invariant
                i <= self.ifaces.len(),
                out.len() == i,
                self@ == old(self)@,
                forall|j: int| 0 <= j < i ==> out[j]@ == (#[trigger] self.ifaces[j])@.sanitized(),
            decreases self.ifaces.len() - i,
        {
            let mut iface = self.ifaces[i].dup();
            iface.sanitize_current_for_verify();
            out.push(iface);
            i += 1;
        }
        assert(out.deep_view() =~= old(self)@.ifaces.map_values(|i: InterfaceView| i.sanitized()));
        self.ifaces = out;
    }
}

impl MergedInterfaces {
    /// No interfaces.
    pub fn empty() -> (r: Self)
        ensures
            r@ == MergedInterfacesView::empty(),
    {
        let r = MergedInterfaces {
            kernel_ifaces: Vec::new(),
            user_ifaces: Vec::new(),
            ignored_ifaces: Vec::new(),
        };
        assert(r@.kernel_ifaces =~= Seq::empty());
        assert(r@.user_ifaces =~= Seq::empty());
        assert(r@.ignored_ifaces =~= Seq::empty());
        r
    }

    /// Adds one interface.
    pub fn add(&mut self, e: MergedInterface)
        ensures
            final(self)@ == old(self)@.with(e@),
    {
        if e.is_ignored() {
            self.ignored_ifaces.push((e.merged.base_iface().name.dup(), e.merged.iface_type()));
            assert(self@.ignored_ifaces =~= old(self)@.ignored_ifaces.push(
                (e@.merged.base().name, e@.merged.base().iface_type),
            ));
        }
        if e.merged.iface_type().is_userspace() {
            self.user_ifaces.push(e);
            assert(self@.user_ifaces =~= old(self)@.user_ifaces.push(e@));
        } else {
            self.kernel_ifaces.push(e);
            assert(self@.kernel_ifaces =~= old(self)@.kernel_ifaces.push(e@));
        }
    }

    /// Lays the desired interfaces beside the current ones. Fails with
    /// `InvalidArgument` when the desired interfaces are not valid: when
    /// two of them go by the same name, or when a bridge of Open vSwitch
    /// has another type.
    pub fn new(desired: Interfaces, current: Interfaces) -> (r: Result<Self, NipartError>)
        ensures
            match desired@.invalid() {
                Some(e) => r is Err && r->Err_0@ == e,
                None => r is Ok && r->Ok_0@ == MergedInterfacesView::laid_out(desired@, current@),
            },
    {
        desired.validate()?;
        let mut ret = MergedInterfaces::empty();
        let mut i: usize = 0;
        assert(desired@.ifaces.take(0) =~= Seq::empty());
        while i < desired.ifaces.len()
            invariant
                i <= desired.ifaces.len(),
                ret@ == MergedInterfacesView::empty().with_desired(
                    desired@.ifaces.take(i as int),
                    current@,
                ),
            decreases desired.ifaces.len() - i,
        {
            assert(desired@.ifaces.take(i + 1).drop_last() =~= desired@.ifaces.take(i as int));
            assert(desired@.ifaces.take(i + 1).last() == desired.ifaces[i as int]@);
            ret.add(MergedInterface::new_desired(desired.ifaces[i].dup(), &current));
            i += 1;
        }
        assert(desired@.ifaces.take(desired.ifaces.len() as int) =~= desired@.ifaces);
        let ghost with_desired = ret@;
        let mut k: usize = 0;
        assert(current@.ifaces.take(0) =~= Seq::empty());
        while k < current.ifaces.len()
            invariant
                k <= current.ifaces.len(),
                ret@ == with_desired.with_current_only(current@.ifaces.take(k as int), desired@),
            decreases current.ifaces.len() - k,
        {
            assert(current@.ifaces.take(k + 1).drop_last() =~= current@.ifaces.take(k as int));
            assert(current@.ifaces.take(k + 1).last() == current.ifaces[k as int]@);
            let c = &current.ifaces[k];
            if desired.get_iface(&c.base_iface().name, c.iface_type()).is_none() {
                ret.add(MergedInterface::new_current(c.dup()));
            }
            k += 1;
        }
        assert(current@.ifaces.take(current.ifaces.len() as int) =~= current@.ifaces);
        Ok(ret)
    }

    /// What there is to apply: the interfaces that change.
    pub fn gen_diff(&self) -> (r: Interfaces)
        ensures
            r@ == self@.diff(),
    {
        let mut out: Vec<Interface> = Vec::new();
        assert(out.deep_view() =~= Seq::empty());
        push_to_apply(&self.kernel_ifaces, &mut out);
        push_to_apply(&self.user_ifaces, &mut out);
        assert(out.deep_view() =~= to_apply(self@.kernel_ifaces) + to_apply(self@.user_ifaces));
        Interfaces { ifaces: out }
    }

    /// Compares the interfaces that are to be compared with those found
    /// after applying; fails with a `VerificationError` for the first that
    /// is not met, kernel interfaces before user space interfaces.
    pub fn verify(&self, current: &Interfaces) -> (r: Result<(), NipartError>)
        ensures
            match self@.failure(current@) {
                None => r is Ok,
                Some(e) => r is Err && r->Err_0@ == e,
            },
    {
        let mut current = current.dup();
        let mut merged = self.dup();
        merged.process_allow_extra_ovs_patch_ports_for_verify(&mut current);
        current.sanitize_current_for_verify();
        verify_entries(&merged.kernel_ifaces, &current)?;
        verify_entries(&merged.user_ifaces, &current)
    }
}

} // verus!
