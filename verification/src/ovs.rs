//! Open vSwitch: merging of settings, and their comparison with the state
//! found after applying.

use crate::data::Data;
use crate::error::{verification_failure_view, ErrorKind, NipartError, NipartErrorView};
use crate::iface::{InterfaceState, InterfaceType};
use crate::ifaces::{
    iface_position, Interface, InterfaceView, Interfaces, InterfacesView, MergedInterface,
    MergedInterfaceView, MergedInterfaces, MergedInterfacesView,
};
use crate::json::{json_string_text, json_text_of_string};
use crate::names::{holds, names_among_except, pick_names_among_except};
use crate::ovs_types::{
    OvsBridgeBondConfig, OvsBridgeBondConfigView, OvsBridgeConfig, OvsBridgeConfigView,
    OvsBridgeInterface, OvsBridgeInterfaceView, OvsBridgePortConfig, OvsBridgePortConfigView,
    OvsDbIfaceConfig, OvsDbIfaceConfigView, OvsInterface, OvsInterfaceView,
};
use crate::ovsdb::{
    MergedOvsDbGlobalConfig, MergedOvsDbGlobalConfigView, OvsDbGlobalConfig,
    OvsDbGlobalConfigView,
};
use crate::strmap::{
    entries, find_repeated_key, first_repeated_key, keys_unique, lookup, strmap_get, StrMapView,
};
use vstd::prelude::*;
use vstd::string::StringExecFns;

verus! {

/// Where a wanted setting of one section is found under.
pub open spec fn setting_reference(section: Seq<char>, key: Seq<char>) -> Seq<char> {
    "ovsdb."@ + section + "."@ + key
}

/// The first wanted setting of a section, at or after `from`, that the
/// current settings do not hold with the same value, as a failure; `None`
/// when every one is held. A key bound to `None` is not wanted.
pub open spec fn section_mismatch(
    section: Seq<char>,
    desired: StrMapView,
    current: StrMapView,
    from: int,
) -> Option<NipartErrorView>
    decreases desired.len() - from,
{
    if from < 0 || from >= desired.len() {
        None
    } else {
        match desired[from].1 {
            None => section_mismatch(section, desired, current, from + 1),
            Some(want) => match lookup(current, desired[from].0) {
                Some(Some(found)) => if found == want {
                    section_mismatch(section, desired, current, from + 1)
                } else {
                    Some(
                        verification_failure_view(
                            setting_reference(section, desired[from].0),
                            json_string_text(want),
                            json_string_text(found),
                        ),
                    )
                },
                _ => Some(
                    verification_failure_view(
                        setting_reference(section, desired[from].0),
                        json_string_text(want),
                        "null"@,
                    ),
                ),
            },
        }
    }
}

/// The first difference between wanted and current database settings:
/// `external_ids` are looked at before `other_config`, each in the order of
/// the desired list. Nothing is wanted where no settings are desired; a
/// missing current section holds no setting.
pub open spec fn ovsdb_mismatch(
    desired: Option<OvsDbGlobalConfigView>,
    current: OvsDbGlobalConfigView,
) -> Option<NipartErrorView> {
    match desired {
        None => None,
        Some(d) => {
            let first = section_mismatch(
                "external_ids"@,
                entries(d.external_ids),
                entries(current.external_ids),
                0,
            );
            if first is Some {
                first
            } else {
                section_mismatch(
                    "other_config"@,
                    entries(d.other_config),
                    entries(current.other_config),
                    0,
                )
            }
        },
    }
}

/// Compares the wanted settings of one section with the current ones.
fn verify_section(
    section: &str,
    desired: &Vec<(String, Option<String>)>,
    current: &Vec<(String, Option<String>)>,
) -> (r: Result<(), NipartError>)
    ensures
        match section_mismatch(section@, desired.deep_view(), current.deep_view(), 0) {
            None => r is Ok,
            Some(e) => r is Err && r->Err_0@ == e,
        },
{
    let mut i: usize = 0;
    while i < desired.len()
        invariant
            i <= desired.len(),
            section_mismatch(section@, desired.deep_view(), current.deep_view(), 0)
                == section_mismatch(section@, desired.deep_view(), current.deep_view(), i as int),
        decreases desired.len() - i,
    {
        if let Some(want) = &desired[i].1 {
            let found_text = match strmap_get(current, &desired[i].0) {
                Some(Some(found)) => {
                    if found.same(want) {
                        None
                    } else {
                        Some(json_text_of_string(found.as_str()))
                    }
                },
                _ => Some(String::from_str("null")),
            };
            if let Some(found_text) = found_text {
                let mut reference = String::from_str("ovsdb.");
                reference.append(section);
                reference.append(".");
                reference.append(desired[i].0.as_str());
                let want_text = json_text_of_string(want.as_str());
                return Err(
                    NipartError::verification_failure(
                        reference.as_str(),
                        want_text.as_str(),
                        found_text.as_str(),
                    ),
                );
            }
        }
        i += 1;
    }
    Ok(())
}

impl MergedOvsDbGlobalConfig {
    /// Whether the desired settings differ from the current ones.
    pub fn is_changed(&self) -> (b: bool)
        ensures
            b == self@.is_changed,
    {
        self.is_changed
    }

    /// Compares the desired database settings with those found after
    /// applying. Succeeds when every wanted setting is found with its value;
    /// else fails with a `VerificationError` that names the first setting
    /// that is not, with the wanted and the found value as JSON text.
    pub fn verify(&self, current: OvsDbGlobalConfig) -> (r: Result<(), NipartError>)
        ensures
            match ovsdb_mismatch(self@.desired, current@) {
                None => r is Ok,
                Some(e) => r is Err && r->Err_0@ == e,
            },
    {
        let desired = match &self.desired {
            Some(d) => d,
            None => {
                return Ok(());
            },
        };
        let empty_map: Vec<(String, Option<String>)> = Vec::new();
        assert(empty_map.deep_view() =~= Seq::empty());
        let des_ids = match &desired.external_ids {
            Some(m) => m,
            None => &empty_map,
        };
        let cur_ids = match &current.external_ids {
            Some(m) => m,
            None => &empty_map,
        };
        verify_section("external_ids", des_ids, cur_ids)?;
        let des_conf = match &desired.other_config {
            Some(m) => m,
            None => &empty_map,
        };
        let cur_conf = match &current.other_config {
            Some(m) => m,
            None => &empty_map,
        };
        verify_section("other_config", des_conf, cur_conf)
    }
}

impl OvsDbGlobalConfig {
    /// Whether neither section is given.
    pub fn is_none(&self) -> (b: bool)
        ensures
            b == (self@.external_ids is None && self@.other_config is None),
    {
        self.external_ids.is_none() && self.other_config.is_none()
    }
}

impl OvsDbIfaceConfigView {
    /// Settings with both sections present and empty.
    pub open spec fn empty() -> OvsDbIfaceConfigView {
        OvsDbIfaceConfigView {
            external_ids: Some(Seq::empty()),
            other_config: Some(Seq::empty()),
        }
    }

    /// Whether the settings are valid: each section binds every key once,
    /// as a map does.
    pub open spec fn wf(self) -> bool {
        keys_unique(entries(self.external_ids)) && keys_unique(entries(self.other_config))
    }
}

impl OvsDbIfaceConfig {
    /// Settings with both sections present and empty.
    pub fn new_empty() -> (r: Self)
        ensures
            r@ == OvsDbIfaceConfigView::empty(),
            r@.wf(),
    {
        let r = OvsDbIfaceConfig { external_ids: Some(Vec::new()), other_config: Some(Vec::new()) };
        assert(r@.external_ids->0 =~= Seq::empty());
        assert(r@.other_config->0 =~= Seq::empty());
        r
    }
}

impl OvsBridgeBondConfigView {
    /// The bond as it is compared: missing database settings count as empty.
    pub open spec fn sanitized(self) -> OvsBridgeBondConfigView {
        OvsBridgeBondConfigView {
            ovsdb: if self.ovsdb is None {
                Some(OvsDbIfaceConfigView::empty())
            } else {
                self.ovsdb
            },
            ..self
        }
    }
}

impl OvsBridgeBondConfig {
    /// Prepares a bond found in the current state for comparison: missing
    /// database settings become empty ones.
    pub fn sanitize_current_for_verify(&mut self)
        ensures
            final(self)@ == old(self)@.sanitized(),
    {
        if self.ovsdb.is_none() {
            self.ovsdb = Some(OvsDbIfaceConfig::new_empty());
        }
    }
}

impl OvsBridgePortConfigView {
    /// The port with its bond, if it has one, prepared for comparison.
    pub open spec fn sanitized(self) -> OvsBridgePortConfigView {
        OvsBridgePortConfigView {
            bond: match self.bond {
                Some(b) => Some(b.sanitized()),
                None => None,
            },
            ..self
        }
    }
}

impl OvsBridgeConfigView {
    /// The bridge settings after taking the port list of `other`, whatever
    /// it is, when `other` is given.
    pub open spec fn updated(self, other: Option<OvsBridgeConfigView>) -> OvsBridgeConfigView {
        match other {
            Some(o) => OvsBridgeConfigView { ports: o.ports, ..self },
            None => self,
        }
    }

    /// The bridge settings with every port prepared for comparison.
    pub open spec fn sanitized(self) -> OvsBridgeConfigView {
        OvsBridgeConfigView {
            ports: match self.ports {
                Some(ps) => Some(ps.map_values(|p: OvsBridgePortConfigView| p.sanitized())),
                None => None,
            },
            ..self
        }
    }
}

impl OvsBridgeConfig {
    /// Takes over the port list of `other`, when `other` is given.
    pub fn update(&mut self, other: Option<&OvsBridgeConfig>)
        ensures
            final(self)@ == old(self)@.updated(other.deep_view()),
    {
        if let Some(other) = other {
            self.ports = other.ports.dup();
        }
    }
}

impl OvsBridgeInterfaceView {
    /// The bridge with its ports prepared for comparison.
    pub open spec fn sanitized(self) -> OvsBridgeInterfaceView {
        OvsBridgeInterfaceView {
            bridge: match self.bridge {
                Some(b) => Some(b.sanitized()),
                None => None,
            },
            ..self
        }
    }

    /// The bridge after merging `other` into it: with bridge settings of its
    /// own it takes over the port list of `other`, else all of the bridge
    /// settings of `other`.
    pub open spec fn updated(self, other: OvsBridgeInterfaceView) -> OvsBridgeInterfaceView {
        OvsBridgeInterfaceView {
            bridge: match self.bridge {
                Some(b) => Some(b.updated(other.bridge)),
                None => other.bridge,
            },
            ..self
        }
    }
}

impl OvsBridgeInterface {
    /// Prepares a bridge found in the current state for comparison: in every
    /// bond, missing database settings become empty ones.
    pub fn sanitize_current_for_verify(&mut self)
        ensures
            final(self)@ == old(self)@.sanitized(),
    {
        let mut sanitized: Option<Vec<OvsBridgePortConfig>> = None;
        if let Some(br_conf) = &self.bridge {
            if let Some(port_confs) = &br_conf.ports {
                let mut out: Vec<OvsBridgePortConfig> = Vec::new();
                let mut i: usize = 0;
                while i < port_confs.len()
                    invariant
                        i <= port_confs.len(),
                        out.len() == i,
                        forall|j: int|
                            0 <= j < i ==> out[j]@ == (#[trigger] port_confs[j])@.sanitized(),
                    decreases port_confs.len() - i,
                {
                    let mut port_conf = port_confs[i].dup();
                    if let Some(bond_conf) = port_conf.bond {
                        let mut bond_conf = bond_conf;
                        bond_conf.sanitize_current_for_verify();
                        port_conf.bond = Some(bond_conf);
                    }
                    out.push(port_conf);
                    i += 1;
                }
                assert(out.deep_view() =~= port_confs.deep_view().map_values(
                    |p: OvsBridgePortConfigView| p.sanitized(),
                ));
                sanitized = Some(out);
            }
        }
        if let Some(ports) = sanitized {
            let allow = match &self.bridge {
                Some(b) => b.allow_extra_patch_ports,
                None => None,
            };
            self.bridge = Some(OvsBridgeConfig { ports: Some(ports), allow_extra_patch_ports: allow });
        }
    }

    /// Merges `other` into this bridge.
    pub fn update_ovs_bridge(&mut self, other: &OvsBridgeInterface)
        ensures
            final(self)@ == old(self)@.updated(other@),
    {
        let merged = match &self.bridge {
            Some(br_conf) => {
                let mut br_conf = br_conf.dup();
                br_conf.update(other.bridge.as_ref());
                Some(br_conf)
            },
            None => other.bridge.dup(),
        };
        self.bridge = merged;
    }
}

impl OvsInterfaceView {
    /// The interface after taking over the patch and DPDK settings that
    /// `other` gives.
    pub open spec fn updated(self, other: OvsInterfaceView) -> OvsInterfaceView {
        OvsInterfaceView {
            patch: if other.patch is Some {
                other.patch
            } else {
                self.patch
            },
            dpdk: if other.dpdk is Some {
                other.dpdk
            } else {
                self.dpdk
            },
            ..self
        }
    }
}

impl OvsInterface {
    /// Takes over the patch and DPDK settings that `other` gives.
    pub fn update_ovs_iface(&mut self, other: &Self)
        ensures
            final(self)@ == old(self)@.updated(other@),
    {
        if other.patch.is_some() {
            self.patch = other.patch.dup();
        }
        if other.dpdk.is_some() {
            self.dpdk = other.dpdk.dup();
        }
    }

    /// Whether this interface is one end of a patch between two bridges.
    pub fn is_ovs_patch_port(&self) -> (b: bool)
        ensures
            b == (self@.patch is Some),
    {
        self.patch.is_some()
    }
}

impl OvsBridgePortConfigView {
    /// The interfaces that the port attaches: the members of its bond, or
    /// the one interface named like the port.
    pub open spec fn member_names(self) -> Seq<Seq<char>> {
        match self.bond {
            Some(b) => match b.ports {
                Some(ns) => ns,
                None => Seq::empty(),
            },
            None => seq![self.name],
        }
    }
}

/// The interfaces that a list of ports attaches, port by port.
pub open spec fn port_names(ps: Seq<OvsBridgePortConfigView>) -> Seq<Seq<char>>
    decreases ps.len(),
{
    if ps.len() == 0 {
        Seq::empty()
    } else {
        port_names(ps.drop_last()) + ps.last().member_names()
    }
}

/// The ports of a list whose name is not among `gone`, in their order.
pub open spec fn ports_except(
    ps: Seq<OvsBridgePortConfigView>,
    gone: Seq<Seq<char>>,
) -> Seq<OvsBridgePortConfigView>
    decreases ps.len(),
{
    if ps.len() == 0 {
        Seq::empty()
    } else {
        let rest = ports_except(ps.drop_last(), gone);
        if gone.contains(ps.last().name) {
            rest
        } else {
            rest.push(ps.last())
        }
    }
}

impl OvsBridgeInterfaceView {
    /// The interfaces attached to the bridge; `None` when the bridge states
    /// no port list.
    pub open spec fn ports(self) -> Option<Seq<Seq<char>>> {
        match self.bridge {
            Some(b) => match b.ports {
                Some(ps) => Some(port_names(ps)),
                None => None,
            },
            None => None,
        }
    }

    /// The bridge without the ports named in `gone`.
    pub open spec fn without_ports(self, gone: Seq<Seq<char>>) -> OvsBridgeInterfaceView {
        match self.bridge {
            Some(b) => match b.ports {
                Some(ps) => OvsBridgeInterfaceView {
                    bridge: Some(OvsBridgeConfigView { ports: Some(ports_except(ps, gone)), ..b }),
                    ..self
                },
                None => self,
            },
            None => self,
        }
    }

    /// The bridge without its word on extra patch ports.
    pub open spec fn without_allow_extra_patch_ports(self) -> OvsBridgeInterfaceView {
        match self.bridge {
            Some(b) => OvsBridgeInterfaceView {
                bridge: Some(OvsBridgeConfigView { allow_extra_patch_ports: None, ..b }),
                ..self
            },
            None => self,
        }
    }
}

impl OvsBridgeInterface {
    /// The names of the interfaces attached to the bridge.
    pub fn ports(&self) -> (r: Option<Vec<String>>)
        ensures
            r.deep_view() == self@.ports(),
    {
        let port_confs = match &self.bridge {
            Some(br_conf) => match &br_conf.ports {
                Some(port_confs) => port_confs,
                None => {
                    return None;
                },
            },
            None => {
                return None;
            },
        };
        let mut out: Vec<String> = Vec::new();
        let mut i: usize = 0;
        assert(port_confs.deep_view().take(0) =~= Seq::empty());
        assert(out.deep_view() =~= Seq::empty());
        while i < port_confs.len()
            invariant
                i <= port_confs.len(),
                out.deep_view() == port_names(port_confs.deep_view().take(i as int)),
            decreases port_confs.len() - i,
        {
            let ghost before = out.deep_view();
            assert(port_confs.deep_view().take(i + 1).drop_last() =~= port_confs.deep_view().take(
                i as int,
            ));
            assert(port_confs.deep_view().take(i + 1).last() == port_confs[i as int]@);
            match &port_confs[i].bond {
                Some(bond_conf) => {
                    if let Some(members) = &bond_conf.ports {
                        let mut j: usize = 0;
                        while j < members.len()
                            invariant
                                j <= members.len(),
                                out.deep_view() == before + members.deep_view().take(j as int),
                            decreases members.len() - j,
                        {
                            let ghost prev = out.deep_view();
                            out.push(members[j].dup());
                            assert(out.deep_view() =~= prev.push(members[j as int]@));
                            assert(members.deep_view().take(j + 1) =~= members.deep_view().take(
                                j as int,
                            ).push(members[j as int]@));
                            assert(out.deep_view() =~= before + members.deep_view().take(j + 1));
                            j += 1;
                        }
                        assert(members.deep_view().take(members.len() as int)
                            =~= members.deep_view());
                    } else {
                        assert(out.deep_view() =~= before + Seq::<Seq<char>>::empty());
                    }
                },
                None => {
                    out.push(port_confs[i].name.dup());
                    assert(out.deep_view() =~= before + seq![port_confs[i as int]@.name]);
                },
            }
            i += 1;
        }
        assert(port_confs.deep_view().take(port_confs.len() as int) =~= port_confs.deep_view());
        Some(out)
    }

    /// Detaches the ports named in `gone` from the bridge.
    pub fn remove_ports(&mut self, gone: &Vec<String>)
        ensures
            final(self)@ == old(self)@.without_ports(gone.deep_view()),
    {
        let mut kept: Option<Vec<OvsBridgePortConfig>> = None;
        if let Some(br_conf) = &self.bridge {
            if let Some(port_confs) = &br_conf.ports {
                let mut out: Vec<OvsBridgePortConfig> = Vec::new();
                let mut i: usize = 0;
                assert(port_confs.deep_view().take(0) =~= Seq::empty());
                assert(out.deep_view() =~= Seq::empty());
                while i < port_confs.len()
                    invariant
                        i <= port_confs.len(),
                        out.deep_view() == ports_except(
                            port_confs.deep_view().take(i as int),
                            gone.deep_view(),
                        ),
                    decreases port_confs.len() - i,
                {
                    let ghost before = out.deep_view();
                    assert(port_confs.deep_view().take(i + 1).drop_last()
                        =~= port_confs.deep_view().take(i as int));
                    assert(port_confs.deep_view().take(i + 1).last() == port_confs[i as int]@);
                    if !holds(gone, &port_confs[i].name) {
                        out.push(port_confs[i].dup());
                        assert(out.deep_view() =~= before.push(port_confs[i as int]@));
                    }
                    i += 1;
                }
                assert(port_confs.deep_view().take(port_confs.len() as int)
                    =~= port_confs.deep_view());
                kept = Some(out);
            }
        }
        if let Some(ports) = kept {
            let allow = match &self.bridge {
                Some(b) => b.allow_extra_patch_ports,
                None => None,
            };
            self.bridge = Some(OvsBridgeConfig { ports: Some(ports), allow_extra_patch_ports: allow });
        }
    }
}

/// The names of the Open vSwitch internal interfaces of a list that are
/// patch ports, in the order of the list.
pub open spec fn patch_port_names(ifaces: Seq<InterfaceView>) -> Seq<Seq<char>>
    decreases ifaces.len(),
{
    if ifaces.len() == 0 {
        Seq::empty()
    } else {
        let rest = patch_port_names(ifaces.drop_last());
        match ifaces.last() {
            InterfaceView::OvsInterface(o) => if o.patch is Some {
                rest.push(o.base.name)
            } else {
                rest
            },
            _ => rest,
        }
    }
}

/// The current interfaces after the bridge that goes by the name of the
/// desired bridge `des` has lost its extra patch ports: the attached
/// interfaces that are patch ports and that `des` does not attach. Nothing
/// changes unless both bridges state their ports.
pub open spec fn without_extra_patch_ports(
    current: InterfacesView,
    des: OvsBridgeInterfaceView,
    patch_ports: Seq<Seq<char>>,
) -> InterfacesView {
    let p = iface_position(current.ifaces, des.base.name, InterfaceType::OvsBridge, 0);
    if p < current.ifaces.len() {
        match (des.ports(), current.ifaces[p].ports()) {
            (Some(des_ports), Some(cur_ports)) => InterfacesView {
                ifaces: current.ifaces.update(
                    p,
                    current.ifaces[p].without_ports(
                        names_among_except(cur_ports, patch_ports, des_ports),
                    ),
                ),
            },
            _ => current,
        }
    } else {
        current
    }
}

impl MergedInterfaceView {
    /// Whether the desired interface is a bridge that is up and tolerates
    /// patch ports it does not list.
    pub open spec fn allows_extra_patch_ports(self) -> bool {
        match self.desired {
            Some(InterfaceView::OvsBridge(o)) => {
                &&& o.base.state == InterfaceState::Up
                &&& match o.bridge {
                    Some(b) => b.allow_extra_patch_ports == Some(true),
                    None => false,
                }
            },
            _ => false,
        }
    }

    /// This interface with the word on extra patch ports taken out of what
    /// is compared, where the desired bridge tolerates them.
    pub open spec fn ready_for_extra_patch_ports(self) -> MergedInterfaceView {
        if self.allows_extra_patch_ports() {
            MergedInterfaceView {
                for_verify: match self.for_verify {
                    Some(InterfaceView::OvsBridge(c)) => Some(
                        InterfaceView::OvsBridge(c.without_allow_extra_patch_ports()),
                    ),
                    other => other,
                },
                ..self
            }
        } else {
            self
        }
    }

    /// The current interfaces after this interface, where its desired
    /// bridge tolerates extra patch ports, has had them taken off.
    pub open spec fn current_without_extra_patch_ports(
        self,
        current: InterfacesView,
        patch_ports: Seq<Seq<char>>,
    ) -> InterfacesView {
        match self.desired {
            Some(InterfaceView::OvsBridge(o)) => if self.allows_extra_patch_ports() {
                without_extra_patch_ports(current, o, patch_ports)
            } else {
                current
            },
            _ => current,
        }
    }
}

/// The current interfaces after each of `merged`, first to last, has had its
/// extra patch ports taken off.
pub open spec fn without_all_extra_patch_ports(
    current: InterfacesView,
    merged: Seq<MergedInterfaceView>,
    patch_ports: Seq<Seq<char>>,
) -> InterfacesView
    decreases merged.len(),
{
    if merged.len() == 0 {
        current
    } else {
        merged.last().current_without_extra_patch_ports(
            without_all_extra_patch_ports(current, merged.drop_last(), patch_ports),
            patch_ports,
        )
    }
}

impl MergedInterfacesView {
    /// These interfaces, each ready for the comparison of its patch ports.
    pub open spec fn ready_for_extra_patch_ports(self) -> MergedInterfacesView {
        MergedInterfacesView {
            kernel_ifaces: self.kernel_ifaces.map_values(
                |m: MergedInterfaceView| m.ready_for_extra_patch_ports(),
            ),
            user_ifaces: self.user_ifaces.map_values(
                |m: MergedInterfaceView| m.ready_for_extra_patch_ports(),
            ),
            ..self
        }
    }

    /// The current interfaces after the kernel interfaces and then the user
    /// space interfaces have had their extra patch ports taken off.
    pub open spec fn current_without_extra_patch_ports(
        self,
        current: InterfacesView,
    ) -> InterfacesView {
        let patch_ports = patch_port_names(current.ifaces);
        without_all_extra_patch_ports(
            without_all_extra_patch_ports(current, self.kernel_ifaces, patch_ports),
            self.user_ifaces,
            patch_ports,
        )
    }
}

impl Interfaces {
    /// The names of the Open vSwitch internal interfaces that are patch
    /// ports.
    pub fn patch_port_names(&self) -> (r: Vec<String>)
        ensures
            r.deep_view() == patch_port_names(self@.ifaces),
    {
        let mut out: Vec<String> = Vec::new();
        let mut i: usize = 0;
        assert(self@.ifaces.take(0) =~= Seq::empty());
        assert(out.deep_view() =~= Seq::empty());
        while i < self.ifaces.len()
            invariant
                i <= self.ifaces.len(),
                out.deep_view() == patch_port_names(self@.ifaces.take(i as int)),
            decreases self.ifaces.len() - i,
        {
            let ghost before = out.deep_view();
            assert(self@.ifaces.take(i + 1).drop_last() =~= self@.ifaces.take(i as int));
            assert(self@.ifaces.take(i + 1).last() == self.ifaces[i as int]@);
            if let Interface::OvsInterface(o) = &self.ifaces[i] {
                if o.is_ovs_patch_port() {
                    out.push(o.base.name.dup());
                    assert(out.deep_view() =~= before.push(o.base.name@));
                }
            }
            i += 1;
        }
        assert(self@.ifaces.take(self.ifaces.len() as int) =~= self@.ifaces);
        out
    }

    /// Takes the extra patch ports off the bridge that goes by the name of
    /// the desired bridge `des`.
    pub fn remove_extra_patch_ports(&mut self, des: &OvsBridgeInterface, patch_ports: &Vec<String>)
        ensures
            final(self)@ == without_extra_patch_ports(old(self)@, des@, patch_ports.deep_view()),
    {
        let p = self.position(&des.base.name, InterfaceType::OvsBridge);
        if p < self.ifaces.len() {
            if let (Some(des_ports), Some(cur_ports)) = (des.ports(), self.ifaces[p].ports()) {
                let ports_to_delete = pick_names_among_except(&cur_ports, patch_ports, &des_ports);
                let mut cur_iface = self.ifaces[p].dup();
                cur_iface.remove_ports(&ports_to_delete);
                self.ifaces.set(p, cur_iface);
                assert(self@.ifaces =~= old(self)@.ifaces.update(
                    p as int,
                    old(self)@.ifaces[p as int].without_ports(ports_to_delete.deep_view()),
                ));
            }
        }
    }
}

impl MergedInterface {
    /// Whether the desired interface is a bridge that is up and tolerates
    /// patch ports it does not list.
    pub fn allows_extra_patch_ports(&self) -> (b: bool)
        ensures
            b == self@.allows_extra_patch_ports(),
    {
        match &self.desired {
            Some(Interface::OvsBridge(o)) => {
                let up = match o.base.state {
                    InterfaceState::Up => true,
                    _ => false,
                };
                up && match &o.bridge {
                    Some(b) => match b.allow_extra_patch_ports {
                        Some(allow) => allow,
                        None => false,
                    },
                    None => false,
                }
            },
            _ => false,
        }
    }
}

/// Does for one list of interfaces what
/// `process_allow_extra_ovs_patch_ports_for_verify` does for all.
fn allow_extra_ovs_patch_ports(
    merged: &Vec<MergedInterface>,
    current: &mut Interfaces,
    patch_ports: &Vec<String>,
) -> (r: Vec<MergedInterface>)
    ensures
        r.deep_view() == merged.deep_view().map_values(
            |m: MergedInterfaceView| m.ready_for_extra_patch_ports(),
        ),
        final(current)@ == without_all_extra_patch_ports(
            old(current)@,
            merged.deep_view(),
            patch_ports.deep_view(),
        ),
{
    let mut out: Vec<MergedInterface> = Vec::new();
    let mut i: usize = 0;
    assert(merged.deep_view().take(0) =~= Seq::empty());
    while i < merged.len()
        invariant
            i <= merged.len(),
            out.len() == i,
            forall|j: int|
                0 <= j < i ==> out[j]@ == (#[trigger] merged[j])@.ready_for_extra_patch_ports(),
            current@ == without_all_extra_patch_ports(
                old(current)@,
                merged.deep_view().take(i as int),
                patch_ports.deep_view(),
            ),
        decreases merged.len() - i,
    {
        assert(merged.deep_view().take(i + 1).drop_last() =~= merged.deep_view().take(i as int));
        assert(merged.deep_view().take(i + 1).last() == merged[i as int]@);
        let mut entry = merged[i].dup();
        if entry.allows_extra_patch_ports() {
            // The current state does not hold the word on extra patch ports.
            let for_verify = match &entry.for_verify {
                Some(Interface::OvsBridge(c)) => {
                    let mut c = c.dup();
                    if let Some(conf) = &c.bridge {
                        let mut conf = conf.dup();
                        conf.allow_extra_patch_ports = None;
                        c.bridge = Some(conf);
                    }
                    Some(Interface::OvsBridge(c))
                },
                other => other.dup(),
            };
            entry.for_verify = for_verify;
            if let Some(Interface::OvsBridge(des_iface)) = &merged[i].desired {
                current.remove_extra_patch_ports(des_iface, patch_ports);
            }
        }
        out.push(entry);
        i += 1;
    }
    assert(merged.deep_view().take(merged.len() as int) =~= merged.deep_view());
    assert(out.deep_view() =~= merged.deep_view().map_values(
        |m: MergedInterfaceView| m.ready_for_extra_patch_ports(),
    ));
    out
}

impl MergedInterfaces {
    /// Prepares the comparison of bridges that tolerate extra patch ports.
    ///
    /// For every desired bridge that is up and tolerates patch ports it does
    /// not list, the word on extra patch ports is taken out of what is
    /// compared, since the current state never holds it, and the current
    /// bridge of the same name loses the attached patch ports that the
    /// desired bridge does not attach.
    pub fn process_allow_extra_ovs_patch_ports_for_verify(&mut self, current: &mut Interfaces)
        ensures
            final(self)@ == old(self)@.ready_for_extra_patch_ports(),
            final(current)@ == old(self)@.current_without_extra_patch_ports(old(current)@),
    {
        let ovs_patch_port_names = current.patch_port_names();
        let kernel_ifaces = allow_extra_ovs_patch_ports(
            &self.kernel_ifaces,
            current,
            &ovs_patch_port_names,
        );
        let user_ifaces = allow_extra_ovs_patch_ports(
            &self.user_ifaces,
            current,
            &ovs_patch_port_names,
        );
        self.kernel_ifaces = kernel_ifaces;
        self.user_ifaces = user_ifaces;
    }
}

/// The error for a setting that is given more than once.
pub open spec fn repeated_key_view(section: Seq<char>, key: Seq<char>) -> NipartErrorView {
    NipartErrorView {
        kind: ErrorKind::InvalidArgument,
        msg: "Setting '"@ + setting_reference(section, key) + "' is given more than once"@,
    }
}

/// The error for the first key of a section that an earlier pair binds;
/// `None` where the section binds no key twice.
pub open spec fn section_invalid(section: Seq<char>, m: StrMapView) -> Option<NipartErrorView> {
    let p = first_repeated_key(m, 0);
    if p < m.len() {
        Some(repeated_key_view(section, m[p].0))
    } else {
        None
    }
}

/// Checks that a section binds no key twice.
fn validate_section(section: &str, m: &Vec<(String, Option<String>)>) -> (r: Result<
    (),
    NipartError,
>)
    ensures
        match section_invalid(section@, m.deep_view()) {
            Some(e) => r is Err && r->Err_0@ == e,
            None => r is Ok,
        },
{
    let p = find_repeated_key(m);
    if p < m.len() {
        let mut msg = String::from_str("Setting '");
        msg.append("ovsdb.");
        msg.append(section);
        msg.append(".");
        msg.append(m[p].0.as_str());
        msg.append("' is given more than once");
        assert(msg@ =~= repeated_key_view(section@, m.deep_view()[p as int].0).msg);
        Err(NipartError::new(ErrorKind::InvalidArgument, msg))
    } else {
        Ok(())
    }
}

impl OvsDbGlobalConfigView {
    /// Settings that state nothing.
    pub open spec fn empty() -> OvsDbGlobalConfigView {
        OvsDbGlobalConfigView { external_ids: None, other_config: None }
    }

    /// What keeps these settings from being valid, as an error: the first
    /// key that is bound twice, `external_ids` looked at before
    /// `other_config`. `None` for valid settings.
    pub open spec fn invalid(self) -> Option<NipartErrorView> {
        let first = section_invalid("external_ids"@, entries(self.external_ids));
        if first is Some {
            first
        } else {
            section_invalid("other_config"@, entries(self.other_config))
        }
    }

    /// Whether the settings are valid: each section binds every key once,
    /// as a map does.
    pub open spec fn wf(self) -> bool {
        self.invalid() is None
    }
}

impl OvsDbGlobalConfig {
    /// Settings that state nothing.
    pub fn new() -> (r: Self)
        ensures
            r@ == OvsDbGlobalConfigView::empty(),
            r@.wf(),
    {
        OvsDbGlobalConfig { external_ids: None, other_config: None }
    }

    /// Checks that the settings are valid. Fails with `InvalidArgument`
    /// for the first key that is bound twice.
    pub fn validate(&self) -> (r: Result<(), NipartError>)
        ensures
            match self@.invalid() {
                Some(e) => r is Err && r->Err_0@ == e,
                None => r is Ok,
            },
    {
        let empty_map: Vec<(String, Option<String>)> = Vec::new();
        assert(empty_map.deep_view() =~= Seq::empty());
        let ids = match &self.external_ids {
            Some(m) => m,
            None => &empty_map,
        };
        validate_section("external_ids", ids)?;
        let conf = match &self.other_config {
            Some(m) => m,
            None => &empty_map,
        };
        validate_section("other_config", conf)
    }

    /// Whether the settings are valid.
    pub fn is_wf(&self) -> (b: bool)
        ensures
            b == self@.wf(),
    {
        self.validate().is_ok()
    }
}

impl MergedOvsDbGlobalConfigView {
    /// Desired settings beside the current ones; they count as changed when
    /// the current ones do not hold every wanted setting.
    pub open spec fn laid_out(
        desired: Option<OvsDbGlobalConfigView>,
        current: OvsDbGlobalConfigView,
    ) -> MergedOvsDbGlobalConfigView {
        MergedOvsDbGlobalConfigView {
            desired,
            current,
            is_changed: ovsdb_mismatch(desired, current) is Some,
        }
    }
}

impl MergedOvsDbGlobalConfig {
    /// Lays the desired database settings beside the current ones.
    pub fn new(desired: Option<OvsDbGlobalConfig>, current: OvsDbGlobalConfig) -> (r: Self)
        ensures
            r@ == MergedOvsDbGlobalConfigView::laid_out(desired.deep_view(), current@),
    {
        let mut ret = MergedOvsDbGlobalConfig { desired, current, is_changed: false };
        let changed = ret.verify(ret.current.dup()).is_err();
        ret.is_changed = changed;
        ret
    }
}

} // verus!
