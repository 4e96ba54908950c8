//! The nispor plugin: it answers queries for the running state and turns a
//! merged state into what is to be done to the interfaces of the kernel.
//!
//! Nothing here touches the kernel. Whoever runs the plugin reads the
//! running state, hands on the configurations made here, and reports how
//! that went.

use crate::data::Data;
use crate::dhcp::{NipartDhcpLease, NipartDhcpLeaseView};
use crate::error::{ErrorKind, NipartError, NipartErrorView};
use crate::event::{
    NipartEvent, NipartEventAddress, NipartEventAddressView, NipartEventView, NipartUserEvent,
    NipartUserEventView, DEFAULT_TIMEOUT,
};
use crate::iface::{InterfaceIpv4, InterfaceIpv6, InterfaceType, VethConfig, VlanConfig};
use crate::ifaces::{
    Interface, InterfaceView, MergedInterface, MergedInterfaceView, MergedInterfaces,
};
use crate::names::{holds, is_name_le, name_le};
use crate::net_state::{MergedNetworkState, NetworkState};
use crate::np_conf::{
    NpIfaceConf, NpIfaceConfView, NpIfaceState, NpIfaceType, NpIpAddrConf, NpIpAddrConfView,
    NpIpConf, NpIpConfView, NpNetConf, NpNetConfView, NpVethConf, NpVethConfView, NpVlanConf,
    NpVlanConfView,
};
use crate::options::NipartApplyOption;
use crate::plugin::{NipartPluginEvent, NipartPluginEventView, NipartRole};
use crate::text::{decimal, decimal_text};
use vstd::prelude::*;
use vstd::string::StringExecFns;

verus! {

/// The priority with which the states that this plugin reports are merged.
pub const STATE_PRIORITY: u32 = 50;

/// The name of the plugin.
pub const PLUGIN_NAME: &'static str = "nispor";

/// The type of an interface as the kernel knows it.
pub open spec fn np_type_of(t: InterfaceType) -> NpIfaceType {
    match t {
        InterfaceType::LinuxBridge => NpIfaceType::Bridge,
        InterfaceType::Bond => NpIfaceType::Bond,
        InterfaceType::Ethernet => NpIfaceType::Ethernet,
        InterfaceType::Veth => NpIfaceType::Veth,
        InterfaceType::Vlan => NpIfaceType::Vlan,
        _ => NpIfaceType::Unknown,
    }
}

/// The type of an interface as the kernel knows it.
pub fn nipart_iface_type_to_np(nms_iface_type: &InterfaceType) -> (r: NpIfaceType)
    ensures
        r == np_type_of(*nms_iface_type),
{
    match nms_iface_type {
        InterfaceType::LinuxBridge => NpIfaceType::Bridge,
        InterfaceType::Bond => NpIfaceType::Bond,
        InterfaceType::Ethernet => NpIfaceType::Ethernet,
        InterfaceType::Veth => NpIfaceType::Veth,
        InterfaceType::Vlan => NpIfaceType::Vlan,
        _ => NpIfaceType::Unknown,
    }
}

/// An address that is valid for ever.
pub open spec fn np_addr_of(addr: (Seq<char>, u8)) -> NpIpAddrConfView {
    NpIpAddrConfView {
        address: addr.0,
        prefix_len: addr.1,
        valid_lft: Seq::empty(),
        preferred_lft: Seq::empty(),
    }
}

/// The addresses to be set for a list of static addresses; none where no
/// list is given.
pub open spec fn np_ip_of(addresses: Option<Seq<(Seq<char>, u8)>>) -> NpIpConfView {
    NpIpConfView {
        addresses: match addresses {
            Some(a) => a.map_values(|addr: (Seq<char>, u8)| np_addr_of(addr)),
            None => Seq::empty(),
        },
    }
}

/// The addresses to be set for a list of static addresses.
fn np_ip_conf(addresses: &Option<Vec<(String, u8)>>) -> (r: NpIpConf)
    ensures
        r@ == np_ip_of(addresses.deep_view()),
{
    let mut out: Vec<NpIpAddrConf> = Vec::new();
    if let Some(addrs) = addresses {
        let mut i: usize = 0;
        while i < addrs.len()
            invariant
                i <= addrs.len(),
                out.len() == i,
                forall|j: int|
                    0 <= j < i ==> out[j]@ == np_addr_of((#[trigger] addrs[j]).deep_view()),
            decreases addrs.len() - i,
        {
            out.push(
                NpIpAddrConf {
                    address: addrs[i].0.dup(),
                    prefix_len: addrs[i].1,
                    valid_lft: String::new(),
                    preferred_lft: String::new(),
                },
            );
            i += 1;
        }
        assert(out.deep_view() =~= addrs.deep_view().map_values(
            |addr: (Seq<char>, u8)| np_addr_of(addr),
        ));
    } else {
        assert(out.deep_view() =~= Seq::empty());
    }
    NpIpConf { addresses: out }
}

/// The IPv4 addresses to be set on an interface.
pub fn nipart_ipv4_to_np(nms_ipv4: Option<&InterfaceIpv4>) -> (r: NpIpConf)
    ensures
        r@ == np_ip_of(
            match nms_ipv4.deep_view() {
                Some(ip) => ip.addresses,
                None => None,
            },
        ),
{
    match nms_ipv4 {
        Some(ip) => np_ip_conf(&ip.addresses),
        None => np_ip_conf(&None),
    }
}

/// The IPv6 addresses to be set on an interface.
pub fn nipart_ipv6_to_np(nms_ipv6: Option<&InterfaceIpv6>) -> (r: NpIpConf)
    ensures
        r@ == np_ip_of(
            match nms_ipv6.deep_view() {
                Some(ip) => ip.addresses,
                None => None,
            },
        ),
{
    match nms_ipv6 {
        Some(ip) => np_ip_conf(&ip.addresses),
        None => np_ip_conf(&None),
    }
}

/// The veth settings to be handed on.
pub fn nms_veth_conf_to_np(nms_veth_conf: Option<&VethConfig>) -> (r: Option<NpVethConf>)
    ensures
        r.deep_view() == match nms_veth_conf.deep_view() {
            Some(v) => Some(NpVethConfView { peer: v.peer }),
            None => None,
        },
{
    match nms_veth_conf {
        Some(v) => Some(NpVethConf { peer: v.peer.dup() }),
        None => None,
    }
}

/// The VLAN settings to be handed on.
pub fn nms_vlan_conf_to_np(nms_vlan_conf: Option<&VlanConfig>) -> (r: Option<NpVlanConf>)
    ensures
        r.deep_view() == match nms_vlan_conf.deep_view() {
            Some(v) => Some(NpVlanConfView { vlan_id: v.id, base_iface: v.base_iface }),
            None => None,
        },
{
    match nms_vlan_conf {
        Some(v) => Some(NpVlanConf { vlan_id: v.id, base_iface: v.base_iface.dup() }),
        None => None,
    }
}

impl NpIfaceConfView {
    /// A configuration that states nothing but the name of the interface.
    pub open spec fn named(name: Seq<char>) -> NpIfaceConfView {
        NpIfaceConfView {
            name,
            state: NpIfaceState::Unknown,
            iface_type: None,
            controller: None,
            ipv4: None,
            ipv6: None,
            mac_address: None,
            veth: None,
            vlan: None,
        }
    }
}

impl NpIfaceConf {
    /// A configuration that states nothing but the name of the interface.
    pub fn named(name: String) -> (r: Self)
        ensures
            r@ == NpIfaceConfView::named(name@),
    {
        NpIfaceConf {
            name,
            state: NpIfaceState::Unknown,
            iface_type: None,
            controller: None,
            ipv4: None,
            ipv6: None,
            mac_address: None,
            veth: None,
            vlan: None,
        }
    }
}

/// The error for an interface that is to be handed on though nothing of it
/// is to be applied.
pub open spec fn nothing_to_apply_view(name: Seq<char>) -> NipartErrorView {
    NipartErrorView {
        kind: ErrorKind::Bug,
        msg: "nipart_iface_to_np() got MergedInterface with for_apply set to None: "@ + name,
    }
}

/// What is to be done to an interface, or the error for one of which
/// nothing is to be applied.
///
/// An ethernet interface with veth settings is handed on as a veth
/// interface. An interface to be removed is handed on by name and type
/// alone. Any other is brought up with its controller, its MAC address,
/// its addresses where it may hold any, and its veth or VLAN settings.
pub open spec fn np_iface_of(m: MergedInterfaceView) -> Result<NpIfaceConfView, NipartErrorView> {
    match m.for_apply {
        None => Err(nothing_to_apply_view(m.merged.base().name)),
        Some(a) => {
            let base = a.base();
            let np_type = match a {
                InterfaceView::Ethernet(e) => if e.veth is Some {
                    NpIfaceType::Veth
                } else {
                    np_type_of(base.iface_type)
                },
                _ => np_type_of(base.iface_type),
            };
            let bare = NpIfaceConfView {
                iface_type: Some(np_type),
                ..NpIfaceConfView::named(base.name)
            };
            if a.is_absent() {
                Ok(NpIfaceConfView { state: NpIfaceState::Absent, ..bare })
            } else {
                Ok(
                    NpIfaceConfView {
                        state: NpIfaceState::Up,
                        controller: base.controller,
                        ipv4: if base.can_have_ip() {
                            Some(
                                np_ip_of(
                                    match base.ipv4 {
                                        Some(ip) => ip.addresses,
                                        None => None,
                                    },
                                ),
                            )
                        } else {
                            None
                        },
                        ipv6: if base.can_have_ip() {
                            Some(
                                np_ip_of(
                                    match base.ipv6 {
                                        Some(ip) => ip.addresses,
                                        None => None,
                                    },
                                ),
                            )
                        } else {
                            None
                        },
                        mac_address: base.mac_address,
                        veth: match a {
                            InterfaceView::Ethernet(e) => match e.veth {
                                Some(v) => Some(NpVethConfView { peer: v.peer }),
                                None => None,
                            },
                            _ => None,
                        },
                        vlan: match (a, m.merged) {
                            (InterfaceView::Ethernet(_), _) => None,
                            (_, InterfaceView::Vlan(v)) => match v.vlan {
                                Some(c) => Some(
                                    NpVlanConfView { vlan_id: c.id, base_iface: c.base_iface },
                                ),
                                None => None,
                            },
                            _ => None,
                        },
                        ..bare
                    },
                )
            }
        },
    }
}

/// Turns an interface into what is to be done to it. Fails with `Bug` for
/// an interface of which nothing is to be applied.
#[verifier::rlimit(50)]
pub fn nipart_iface_to_np(merged_iface: &MergedInterface) -> (r: Result<NpIfaceConf, NipartError>)
    ensures
        match np_iface_of(merged_iface@) {
            Ok(c) => r is Ok && r->Ok_0@ == c,
            Err(e) => r is Err && r->Err_0@ == e,
        },
{
    let for_apply = match &merged_iface.for_apply {
        Some(i) => i,
        None => {
            let mut msg = String::from_str(
                "nipart_iface_to_np() got MergedInterface with for_apply set to None: ",
            );
            msg.append(merged_iface.merged.name());
            return Err(NipartError::new(ErrorKind::Bug, msg));
        },
    };
    let mut np_iface_type = nipart_iface_type_to_np(&for_apply.iface_type());
    if let Interface::Ethernet(iface) = for_apply {
        if iface.veth.is_some() {
            np_iface_type = NpIfaceType::Veth;
        }
    }
    let mut np_iface = NpIfaceConf::named(String::from_str(for_apply.name()));
    np_iface.iface_type = Some(np_iface_type);
    if for_apply.is_absent() {
        np_iface.state = NpIfaceState::Absent;
        return Ok(np_iface);
    }
    np_iface.state = NpIfaceState::Up;

    let base_iface = for_apply.base_iface();
    if base_iface.controller.is_some() {
        np_iface.controller = base_iface.controller.dup();
    }
    if base_iface.can_have_ip() {
        np_iface.ipv4 = Some(nipart_ipv4_to_np(base_iface.ipv4.as_ref()));
        np_iface.ipv6 = Some(nipart_ipv6_to_np(base_iface.ipv6.as_ref()));
    }
    np_iface.mac_address = base_iface.mac_address.dup();

    if let Interface::Ethernet(eth_iface) = for_apply {
        np_iface.veth = nms_veth_conf_to_np(eth_iface.veth.as_ref());
    } else if let Interface::Vlan(vlan_iface) = &merged_iface.merged {
        np_iface.vlan = nms_vlan_conf_to_np(vlan_iface.vlan.as_ref());
    }
    Ok(np_iface)
}

/// The names of deleted veth ends and the configurations that delete
/// interfaces, while interfaces are gone through.
pub struct Deletion {
    pub deleted_veths: Seq<Seq<char>>,
    pub confs: Seq<NpIfaceConfView>,
}

/// The deletion of the interfaces of a list that are to be removed, first
/// to last, or the error met at the first that cannot be handed on.
///
/// An interface that was noted as a deleted veth end is passed over: with
/// one end of a veth pair the other goes too. An interface whose current
/// counterpart is an ethernet interface with veth settings notes itself and
/// its peer.
pub open spec fn deletion_of(entries: Seq<MergedInterfaceView>) -> Result<
    Deletion,
    NipartErrorView,
>
    decreases entries.len(),
{
    if entries.len() == 0 {
        Ok(Deletion { deleted_veths: Seq::empty(), confs: Seq::empty() })
    } else {
        match deletion_of(entries.drop_last()) {
            Err(e) => Err(e),
            Ok(d) => {
                let m = entries.last();
                if !m.merged.is_absent() || d.deleted_veths.contains(m.merged.base().name) {
                    Ok(d)
                } else {
                    match np_iface_of(m) {
                        Err(e) => Err(e),
                        Ok(c) => Ok(
                            Deletion {
                                deleted_veths: match m.current {
                                    Some(InterfaceView::Ethernet(e)) => match e.veth {
                                        Some(v) => d.deleted_veths.push(e.base.name).push(v.peer),
                                        None => d.deleted_veths,
                                    },
                                    _ => d.deleted_veths,
                                },
                                confs: d.confs.push(c),
                            },
                        ),
                    }
                }
            },
        }
    }
}

/// What is to be done to remove the kernel interfaces that are to be
/// removed. Fails with `Bug` at the first such interface of which nothing
/// is to be applied.
#[verifier::rlimit(50)]
pub fn delete_ifaces(merged_ifaces: &MergedInterfaces) -> (r: Result<NpNetConf, NipartError>)
    ensures
        match deletion_of(merged_ifaces@.kernel_ifaces) {
            Ok(d) => r is Ok && r->Ok_0@ == (NpNetConfView { ifaces: Some(d.confs) }),
            Err(e) => r is Err && r->Err_0@ == e,
        },
{
    let entries = &merged_ifaces.kernel_ifaces;
    let mut deleted_veths: Vec<String> = Vec::new();
    let mut np_ifaces: Vec<NpIfaceConf> = Vec::new();
    let mut i: usize = 0;
    assert(entries.deep_view().take(0) =~= Seq::empty());
    assert(deleted_veths.deep_view() =~= Seq::empty());
    assert(np_ifaces.deep_view() =~= Seq::empty());
    while i < entries.len()
        invariant
            i <= entries.len(),
            entries.deep_view() == merged_ifaces@.kernel_ifaces,
            deletion_of(entries.deep_view().take(i as int)) == Ok::<Deletion, NipartErrorView>(
                Deletion { deleted_veths: deleted_veths.deep_view(), confs: np_ifaces.deep_view() },
            ),
        decreases entries.len() - i,
    {
        let ghost veths_before = deleted_veths.deep_view();
        let ghost confs_before = np_ifaces.deep_view();
        assert(entries.deep_view().take(i + 1).drop_last() =~= entries.deep_view().take(i as int));
        assert(entries.deep_view().take(i + 1).last() == entries[i as int]@);
        let iface = &entries[i];
        if iface.merged.is_absent() {
            // Deleting one end of veth peer is enough
            let name = String::from_str(iface.merged.name());
            if !holds(&deleted_veths, &name) {
                match nipart_iface_to_np(iface) {
                    Ok(c) => {
                        if let Some(Interface::Ethernet(eth_iface)) = &iface.current {
                            if let Some(veth_conf) = &eth_iface.veth {
                                deleted_veths.push(eth_iface.base.name.dup());
                                deleted_veths.push(veth_conf.peer.dup());
                                assert(deleted_veths.deep_view() =~= veths_before.push(
                                    eth_iface@.base.name,
                                ).push(veth_conf@.peer));
                            }
                        }
                        np_ifaces.push(c);
                        assert(np_ifaces.deep_view() =~= confs_before.push(c@));
                    },
                    Err(e) => {
                        proof {
                            lemma_deletion_fails(entries.deep_view(), i as int + 1);
                        }
                        return Err(e);
                    },
                }
            }
        }
        i += 1;
    }
    assert(entries.deep_view().take(entries.len() as int) =~= entries.deep_view());
    Ok(NpNetConf { ifaces: Some(np_ifaces) })
}

/// Once the deletion of a front part of a list met an error, the deletion
/// of the whole list meets it.
pub proof fn lemma_deletion_fails(entries: Seq<MergedInterfaceView>, n: int)
    requires
        0 <= n <= entries.len(),
        deletion_of(entries.take(n)) is Err,
    ensures
        deletion_of(entries) == deletion_of(entries.take(n)),
    decreases entries.len() - n,
{
    if n < entries.len() {
        assert(entries.take(n + 1).drop_last() =~= entries.take(n));
        lemma_deletion_fails(entries, n + 1);
    } else {
        assert(entries.take(n) =~= entries);
    }
}

/// An interface on its way to the kernel, with what decides its place in
/// the order of activation: its priority and its name.
pub type Keyed = (u32, Seq<char>, NpIfaceConfView);

/// Whether `a` may stand before `b` in the order of activation: it has the
/// smaller priority number or, with the same number, a name that does not
/// stand behind.
pub open spec fn activates_before(a: Keyed, b: Keyed) -> bool {
    a.0 < b.0 || (a.0 == b.0 && name_le(a.1, b.1))
}

/// The index, at or after `from`, of the first interface that may not
/// stand before `x`; the length of the list when there is none.
pub open spec fn activation_position(sorted: Seq<Keyed>, x: Keyed, from: int) -> int
    decreases sorted.len() - from,
{
    if from < 0 || from >= sorted.len() {
        sorted.len() as int
    } else if !activates_before(sorted[from], x) {
        from
    } else {
        activation_position(sorted, x, from + 1)
    }
}

/// The interfaces of a list that change, are of a known type and are not
/// to be removed, in the order of activation: by priority, then by name,
/// as at the start of the system.
pub open spec fn activation_of(entries: Seq<MergedInterfaceView>) -> Seq<Keyed>
    decreases entries.len(),
{
    if entries.len() == 0 {
        Seq::empty()
    } else {
        let sorted = activation_of(entries.drop_last());
        let m = entries.last();
        match m.for_apply {
            Some(a) => if m.merged.base().iface_type != InterfaceType::Unknown
                && !m.merged.is_absent() {
                let x = (a.base().up_priority, m.merged.base().name, np_iface_of(m)->Ok_0);
                sorted.insert(activation_position(sorted, x, 0), x)
            } else {
                sorted
            },
            None => sorted,
        }
    }
}

/// The interfaces of two lists in the order of activation.
pub open spec fn activation_of_all(
    kernel: Seq<MergedInterfaceView>,
    user: Seq<MergedInterfaceView>,
) -> Seq<NpIfaceConfView> {
    activation_of(kernel + user).map_values(|k: Keyed| k.2)
}

/// Puts the interface at `index` of `entries` into the order of
/// activation, where it belongs there.
#[verifier::rlimit(50)]
fn activate(
    entries: &Vec<MergedInterface>,
    index: usize,
    sorted: &mut Vec<(u32, String, NpIfaceConf)>,
    Ghost(front): Ghost<Seq<MergedInterfaceView>>,
)
    requires
        index < entries.len(),
        old(sorted).deep_view() == activation_of(front),
    ensures
        final(sorted).deep_view() == activation_of(front.push(entries[index as int]@)),
{
    let ghost before = sorted.deep_view();
    assert(front.push(entries[index as int]@).drop_last() =~= front);
    let m = &entries[index];
    if let Some(a) = &m.for_apply {
        let known = match m.merged.iface_type() {
            InterfaceType::Unknown => false,
            _ => true,
        };
        if known && !m.merged.is_absent() {
            if let Ok(conf) = nipart_iface_to_np(m) {
                let prio = a.base_iface().up_priority;
                let name = String::from_str(m.merged.name());
                let ghost x = (prio, name@, conf@);
                let mut p: usize = 0;
                while p < sorted.len() && (sorted[p].0 < prio || (sorted[p].0 == prio && is_name_le(
                    sorted[p].1.as_str(),
                    name.as_str(),
                )))
                    invariant
                        p <= sorted.len(),
                        sorted.deep_view() == before,
                        x == (prio, name@, conf@),
                        activation_position(before, x, 0) == activation_position(
                            before,
                            x,
                            p as int,
                        ),
                    decreases sorted.len() - p,
                {
                    p += 1;
                }
                sorted.insert(p, (prio, name, conf));
                assert(sorted.deep_view() =~= before.insert(p as int, x));
            }
        }
    }
}

/// What is to be done to bring up the interfaces that change: those of a
/// known type that are not to be removed, in the order of activation.
pub fn nispor_apply(merged_state: &MergedNetworkState, _opt: NipartApplyOption) -> (r: NpNetConf)
    ensures
        r@ == (NpNetConfView {
            ifaces: Some(
                activation_of_all(
                    merged_state@.interfaces.kernel_ifaces,
                    merged_state@.interfaces.user_ifaces,
                ),
            ),
        }),
{
    let kernel = &merged_state.interfaces.kernel_ifaces;
    let user = &merged_state.interfaces.user_ifaces;
    let mut sorted: Vec<(u32, String, NpIfaceConf)> = Vec::new();
    assert(sorted.deep_view() =~= Seq::empty());
    let mut i: usize = 0;
    assert(kernel.deep_view().take(0) =~= Seq::empty());
    while i < kernel.len()
        invariant
            i <= kernel.len(),
            sorted.deep_view() == activation_of(kernel.deep_view().take(i as int)),
        decreases kernel.len() - i,
    {
        assert(kernel.deep_view().take(i + 1) =~= kernel.deep_view().take(i as int).push(
            kernel[i as int]@,
        ));
        activate(kernel, i, &mut sorted, Ghost(kernel.deep_view().take(i as int)));
        i += 1;
    }
    assert(kernel.deep_view().take(kernel.len() as int) =~= kernel.deep_view());
    let mut j: usize = 0;
    assert(kernel.deep_view() + user.deep_view().take(0) =~= kernel.deep_view());
    while j < user.len()
        invariant
            j <= user.len(),
            sorted.deep_view() == activation_of(
                kernel.deep_view() + user.deep_view().take(j as int),
            ),
        decreases user.len() - j,
    {
        assert(kernel.deep_view() + user.deep_view().take(j + 1) =~= (kernel.deep_view()
            + user.deep_view().take(j as int)).push(user[j as int]@));
        activate(
            user,
            j,
            &mut sorted,
            Ghost(kernel.deep_view() + user.deep_view().take(j as int)),
        );
        j += 1;
    }
    assert(user.deep_view().take(user.len() as int) =~= user.deep_view());
    let mut np_ifaces: Vec<NpIfaceConf> = Vec::new();
    let mut k: usize = 0;
    while k < sorted.len()
        invariant
            k <= sorted.len(),
            np_ifaces.len() == k,
            forall|n: int| 0 <= n < k ==> np_ifaces[n]@ == (#[trigger] sorted[n]).2@,
        decreases sorted.len() - k,
    {
        np_ifaces.push(sorted[k].2.dup());
        k += 1;
    }
    assert(np_ifaces.deep_view() =~= sorted.deep_view().map_values(|k: Keyed| k.2));
    NpNetConf { ifaces: Some(np_ifaces) }
}

/// The host name that is to be in use, if one is desired.
pub fn desired_running_hostname(merged_state: &MergedNetworkState) -> (r: Option<&String>)
    ensures
        r.deep_view() == match merged_state@.hostname.desired {
            Some(h) => h.running,
            None => None,
        },
{
    match merged_state.get_desired_hostname() {
        Some(h) => h.running.as_ref(),
        None => None,
    }
}

/// The time a lease lasts as the kernel takes it: the seconds and `sec`.
pub open spec fn lease_time_text(seconds: u32) -> Seq<char> {
    decimal_text(seconds as nat) + "sec"@
}

/// What is to be done to set the address of a lease on its interface.
pub open spec fn lease_conf_of(lease: NipartDhcpLeaseView) -> NpNetConfView {
    let l = lease->V4_0;
    NpNetConfView {
        ifaces: Some(
            seq![
                NpIfaceConfView {
                    state: NpIfaceState::Up,
                    ipv4: Some(
                        NpIpConfView {
                            addresses: seq![
                                NpIpAddrConfView {
                                    address: l.ip,
                                    prefix_len: l.prefix_length,
                                    valid_lft: lease_time_text(l.lease_time),
                                    preferred_lft: lease_time_text(l.lease_time),
                                },
                            ],
                        },
                    ),
                    ..NpIfaceConfView::named(l.iface)
                },
            ],
        ),
    }
}

/// What is to be done to set the address of an IPv4 lease on its
/// interface. Leases of IPv6 cannot be applied yet.
pub fn nispor_apply_dhcp_lease(lease: NipartDhcpLease) -> (r: NpNetConf)
    requires
        lease@ is V4,
    ensures
        r@ == lease_conf_of(lease@),
{
    match lease {
        NipartDhcpLease::V4(lease) => {
            let mut np_iface = NpIfaceConf::named(lease.iface.dup());
            let mut valid_lft = decimal(lease.lease_time as u128);
            valid_lft.append("sec");
            let preferred_lft = valid_lft.dup();
            let ip_addr = NpIpAddrConf {
                address: lease.ip.dup(),
                prefix_len: lease.prefix_length,
                valid_lft,
                preferred_lft,
            };
            // The addresses that the interface holds are not preserved.
            let addresses = vec![ip_addr];
            assert(addresses.deep_view() =~= seq![ip_addr@]);
            np_iface.ipv4 = Some(NpIpConf { addresses });
            np_iface.state = NpIfaceState::Up;
            let ifaces = vec![np_iface];
            assert(ifaces.deep_view() =~= seq![np_iface@]);
            NpNetConf { ifaces: Some(ifaces) }
        },
        NipartDhcpLease::V6(_) => vstd::pervasive::unreached(),
    }
}

/// The failure that reports an error of the kernel interface.
pub open spec fn apply_failure_view(kind: Seq<char>, msg: Seq<char>) -> NipartErrorView {
    NipartErrorView {
        kind: ErrorKind::PluginFailure,
        msg: "Unknown error from nipsor plugin: "@ + kind + ", "@ + msg,
    }
}

/// Reports an error of the kernel interface, given by its kind and its
/// message.
pub fn apply_failure(kind: &str, msg: &str) -> (e: NipartError)
    ensures
        e@ == apply_failure_view(kind@, msg@),
{
    let mut text = String::from_str("Unknown error from nipsor plugin: ");
    text.append(kind);
    text.append(", ");
    text.append(msg);
    NipartError::new(ErrorKind::PluginFailure, text)
}

/// What an event asks of the plugin.
#[derive(Debug, PartialEq)]
pub enum NisporRequest {
    /// Report the running state.
    Query,
    /// Apply the merged state.
    Apply(Box<MergedNetworkState>, NipartApplyOption),
    /// Nothing: the event is not for this plugin.
    Nothing,
}

impl NisporRequest {
    /// What this request is, with the views of what it carries.
    pub open spec fn matches_event(self, plugin: NipartPluginEventView) -> bool {
        match plugin {
            NipartPluginEventView::QueryNetState(_) => self is Query,
            NipartPluginEventView::QueryRelatedNetState(_) => self is Query,
            NipartPluginEventView::ApplyNetState(m, opt) => self matches NisporRequest::Apply(
                rm,
                ropt,
            ) && rm@ == m && ropt == opt,
            _ => self is Nothing,
        }
    }
}

/// The plugin.
#[derive(Debug, PartialEq)]
pub struct NipartPluginNispor {
    socket_path: String,
}

impl NipartPluginNispor {
    /// The name of the plugin.
    pub const PLUGIN_NAME: &'static str = PLUGIN_NAME;

    /// The plugin, listening at the given socket.
    pub fn init(socket_path: &str) -> (r: Self)
        ensures
            r.socket_path()@ == socket_path@,
    {
        NipartPluginNispor { socket_path: String::from_str(socket_path) }
    }

    /// The path of the socket that the plugin listens at.
    pub closed spec fn socket_path(&self) -> String {
        self.socket_path
    }

    /// The path of the socket that the plugin listens at.
    pub fn get_socket_path(&self) -> (r: &str)
        ensures
            r@ == self.socket_path()@,
    {
        self.socket_path.as_str()
    }

    /// The roles of the plugin: it queries and applies states.
    pub fn roles(&self) -> (r: Vec<NipartRole>)
        ensures
            r@ == seq![NipartRole::QueryAndApply],
    {
        vec![NipartRole::QueryAndApply]
    }

    /// Tells what an event asks of the plugin: a query for the state or for
    /// a related state asks for the running state, an apply hands on its
    /// merged state, and any other event asks for nothing.
    pub fn handle_event(event: NipartEvent) -> (r: (u128, NisporRequest))
        ensures
            r.0 == event@.uuid,
            r.1.matches_event(event@.plugin),
    {
        let uuid = event.uuid;
        match event.plugin {
            NipartPluginEvent::QueryNetState(_) => (uuid, NisporRequest::Query),
            // A related state is answered with the full state.
            NipartPluginEvent::QueryRelatedNetState(_) => (uuid, NisporRequest::Query),
            NipartPluginEvent::ApplyNetState(merged_state, opt) => (
                uuid,
                NisporRequest::Apply(merged_state, opt),
            ),
            _ => (uuid, NisporRequest::Nothing),
        }
    }

    /// The reply to a query: the running state with the priority of this
    /// plugin, under the identifier of the query.
    pub fn query_reply(uuid: u128, state: NetworkState) -> (reply: NipartEvent)
        ensures
            reply@ == (NipartEventView {
                uuid,
                user: NipartUserEventView::Nil,
                plugin: NipartPluginEventView::QueryNetStateReply(state@, STATE_PRIORITY),
                src: NipartEventAddressView::Unicast(PLUGIN_NAME@),
                dst: NipartEventAddressView::Commander,
                timeout: DEFAULT_TIMEOUT,
                postpone_millis: 0,
            }),
    {
        let mut reply = NipartEvent::new(
            NipartUserEvent::Nil,
            NipartPluginEvent::QueryNetStateReply(Box::new(state), STATE_PRIORITY),
            NipartEventAddress::Unicast(String::from_str(PLUGIN_NAME)),
            NipartEventAddress::Commander,
            DEFAULT_TIMEOUT,
        );
        reply.uuid = uuid;
        reply
    }
}

/// The reply to an apply, under the identifier of the request. Where
/// applying went well it carries the reply of the plugin level; where it
/// failed it carries the failure, and nothing of the plugin level.
pub fn handle_apply(result: Result<(), NipartError>, uuid: u128) -> (reply: NipartEvent)
    ensures
        reply@ == (NipartEventView {
            uuid,
            user: match result {
                Ok(_) => NipartUserEventView::Nil,
                Err(e) => NipartUserEventView::Error(e@),
            },
            plugin: match result {
                Ok(_) => NipartPluginEventView::ApplyNetStateReply,
                Err(_) => NipartPluginEventView::Nil,
            },
            src: NipartEventAddressView::Unicast(PLUGIN_NAME@),
            dst: NipartEventAddressView::Commander,
            timeout: DEFAULT_TIMEOUT,
            postpone_millis: 0,
        }),
{
    let mut reply = match result {
        Ok(()) => NipartEvent::new(
            NipartUserEvent::Nil,
            NipartPluginEvent::ApplyNetStateReply,
            NipartEventAddress::Unicast(String::from_str(PLUGIN_NAME)),
            NipartEventAddress::Commander,
            DEFAULT_TIMEOUT,
        ),
        Err(e) => NipartEvent::new(
            NipartUserEvent::Error(e),
            NipartPluginEvent::Nil,
            NipartEventAddress::Unicast(String::from_str(PLUGIN_NAME)),
            NipartEventAddress::Commander,
            DEFAULT_TIMEOUT,
        ),
    };
    reply.uuid = uuid;
    reply
}

} // verus!
