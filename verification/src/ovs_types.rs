//! Open vSwitch bridges and their internal interfaces.

use crate::data::Data;
use crate::iface::{BaseInterface, BaseInterfaceView};
use vstd::prelude::*;

verus! {

/// Database settings attached to an interface or a bond.
#[derive(Debug, PartialEq)]
pub struct OvsDbIfaceConfig {
    pub external_ids: Option<Vec<(String, Option<String>)>>,
    pub other_config: Option<Vec<(String, Option<String>)>>,
}

/// The mathematical value of a [`OvsDbIfaceConfig`].
#[verifier::ext_equal]
pub struct OvsDbIfaceConfigView {
    pub external_ids: Option<Seq<(Seq<char>, Option<Seq<char>>)>>,
    pub other_config: Option<Seq<(Seq<char>, Option<Seq<char>>)>>,
}

impl DeepView for OvsDbIfaceConfig {
    type V = OvsDbIfaceConfigView;

    open spec fn deep_view(&self) -> OvsDbIfaceConfigView {
        OvsDbIfaceConfigView {
            external_ids: self.external_ids.deep_view(),
            other_config: self.other_config.deep_view(),
        }
    }
}

impl View for OvsDbIfaceConfig {
    type V = OvsDbIfaceConfigView;

    open spec fn view(&self) -> OvsDbIfaceConfigView {
        self.deep_view()
    }
}

impl Data for OvsDbIfaceConfig {
    fn same(&self, other: &Self) -> (b: bool) {
        self.external_ids.same(&other.external_ids)
            && self.other_config.same(&other.other_config)
    }

    fn dup(&self) -> (r: Self) {
        OvsDbIfaceConfig {
            external_ids: self.external_ids.dup(),
            other_config: self.other_config.dup(),
        }
    }
}

/// A bond inside an Open vSwitch bridge port.
#[derive(Debug, PartialEq)]
pub struct OvsBridgeBondConfig {
    /// Names of the interfaces that the bond holds.
    pub ports: Option<Vec<String>>,
    pub ovsdb: Option<OvsDbIfaceConfig>,
}

/// The mathematical value of a [`OvsBridgeBondConfig`].
#[verifier::ext_equal]
pub struct OvsBridgeBondConfigView {
    pub ports: Option<Seq<Seq<char>>>,
    pub ovsdb: Option<OvsDbIfaceConfigView>,
}

impl DeepView for OvsBridgeBondConfig {
    type V = OvsBridgeBondConfigView;

    open spec fn deep_view(&self) -> OvsBridgeBondConfigView {
        OvsBridgeBondConfigView {
            ports: self.ports.deep_view(),
            ovsdb: self.ovsdb.deep_view(),
        }
    }
}

impl View for OvsBridgeBondConfig {
    type V = OvsBridgeBondConfigView;

    open spec fn view(&self) -> OvsBridgeBondConfigView {
        self.deep_view()
    }
}

impl Data for OvsBridgeBondConfig {
    fn same(&self, other: &Self) -> (b: bool) {
        self.ports.same(&other.ports)
            && self.ovsdb.same(&other.ovsdb)
    }

    fn dup(&self) -> (r: Self) {
        OvsBridgeBondConfig {
            ports: self.ports.dup(),
            ovsdb: self.ovsdb.dup(),
        }
    }
}

/// A port of an Open vSwitch bridge.
#[derive(Debug, PartialEq)]
pub struct OvsBridgePortConfig {
    pub name: String,
    pub bond: Option<OvsBridgeBondConfig>,
}

/// The mathematical value of a [`OvsBridgePortConfig`].
#[verifier::ext_equal]
pub struct OvsBridgePortConfigView {
    pub name: Seq<char>,
    pub bond: Option<OvsBridgeBondConfigView>,
}

impl DeepView for OvsBridgePortConfig {
    type V = OvsBridgePortConfigView;

    open spec fn deep_view(&self) -> OvsBridgePortConfigView {
        OvsBridgePortConfigView {
            name: self.name.deep_view(),
            bond: self.bond.deep_view(),
        }
    }
}

impl View for OvsBridgePortConfig {
    type V = OvsBridgePortConfigView;

    open spec fn view(&self) -> OvsBridgePortConfigView {
        self.deep_view()
    }
}

impl Data for OvsBridgePortConfig {
    fn same(&self, other: &Self) -> (b: bool) {
        self.name.same(&other.name)
            && self.bond.same(&other.bond)
    }

    fn dup(&self) -> (r: Self) {
        OvsBridgePortConfig {
            name: self.name.dup(),
            bond: self.bond.dup(),
        }
    }
}

/// The bridge part of an Open vSwitch bridge interface.
#[derive(Debug, PartialEq)]
pub struct OvsBridgeConfig {
    pub ports: Option<Vec<OvsBridgePortConfig>>,
    /// Tolerate patch ports that the desired state does not list.
    pub allow_extra_patch_ports: Option<bool>,
}

/// The mathematical value of a [`OvsBridgeConfig`].
#[verifier::ext_equal]
pub struct OvsBridgeConfigView {
    pub ports: Option<Seq<OvsBridgePortConfigView>>,
    pub allow_extra_patch_ports: Option<bool>,
}

impl DeepView for OvsBridgeConfig {
    type V = OvsBridgeConfigView;

    open spec fn deep_view(&self) -> OvsBridgeConfigView {
        OvsBridgeConfigView {
            ports: self.ports.deep_view(),
            allow_extra_patch_ports: self.allow_extra_patch_ports.deep_view(),
        }
    }
}

impl View for OvsBridgeConfig {
    type V = OvsBridgeConfigView;

    open spec fn view(&self) -> OvsBridgeConfigView {
        self.deep_view()
    }
}

impl Data for OvsBridgeConfig {
    fn same(&self, other: &Self) -> (b: bool) {
        self.ports.same(&other.ports)
            && self.allow_extra_patch_ports.same(&other.allow_extra_patch_ports)
    }

    fn dup(&self) -> (r: Self) {
        OvsBridgeConfig {
            ports: self.ports.dup(),
            allow_extra_patch_ports: self.allow_extra_patch_ports.dup(),
        }
    }
}

/// An Open vSwitch bridge.
#[derive(Debug, PartialEq)]
pub struct OvsBridgeInterface {
    pub base: BaseInterface,
    pub bridge: Option<OvsBridgeConfig>,
}

/// The mathematical value of a [`OvsBridgeInterface`].
#[verifier::ext_equal]
pub struct OvsBridgeInterfaceView {
    pub base: BaseInterfaceView,
    pub bridge: Option<OvsBridgeConfigView>,
}

impl DeepView for OvsBridgeInterface {
    type V = OvsBridgeInterfaceView;

    open spec fn deep_view(&self) -> OvsBridgeInterfaceView {
        OvsBridgeInterfaceView {
            base: self.base.deep_view(),
            bridge: self.bridge.deep_view(),
        }
    }
}

impl View for OvsBridgeInterface {
    type V = OvsBridgeInterfaceView;

    open spec fn view(&self) -> OvsBridgeInterfaceView {
        self.deep_view()
    }
}

impl Data for OvsBridgeInterface {
    fn same(&self, other: &Self) -> (b: bool) {
        self.base.same(&other.base)
            && self.bridge.same(&other.bridge)
    }

    fn dup(&self) -> (r: Self) {
        OvsBridgeInterface {
            base: self.base.dup(),
            bridge: self.bridge.dup(),
        }
    }
}

/// The patch part of an Open vSwitch interface.
#[derive(Debug, PartialEq)]
pub struct OvsPatchConfig {
    pub peer: String,
}

/// The mathematical value of a [`OvsPatchConfig`].
#[verifier::ext_equal]
pub struct OvsPatchConfigView {
    pub peer: Seq<char>,
}

impl DeepView for OvsPatchConfig {
    type V = OvsPatchConfigView;

    open spec fn deep_view(&self) -> OvsPatchConfigView {
        OvsPatchConfigView {
            peer: self.peer.deep_view(),
        }
    }
}

impl View for OvsPatchConfig {
    type V = OvsPatchConfigView;

    open spec fn view(&self) -> OvsPatchConfigView {
        self.deep_view()
    }
}

impl Data for OvsPatchConfig {
    fn same(&self, other: &Self) -> (b: bool) {
        self.peer.same(&other.peer)
    }

    fn dup(&self) -> (r: Self) {
        OvsPatchConfig {
            peer: self.peer.dup(),
        }
    }
}

/// The DPDK part of an Open vSwitch interface.
#[derive(Debug, PartialEq)]
pub struct OvsDpdkConfig {
    pub devargs: String,
}

/// The mathematical value of a [`OvsDpdkConfig`].
#[verifier::ext_equal]
pub struct OvsDpdkConfigView {
    pub devargs: Seq<char>,
}

impl DeepView for OvsDpdkConfig {
    type V = OvsDpdkConfigView;

    open spec fn deep_view(&self) -> OvsDpdkConfigView {
        OvsDpdkConfigView {
            devargs: self.devargs.deep_view(),
        }
    }
}

impl View for OvsDpdkConfig {
    type V = OvsDpdkConfigView;

    open spec fn view(&self) -> OvsDpdkConfigView {
        self.deep_view()
    }
}

impl Data for OvsDpdkConfig {
    fn same(&self, other: &Self) -> (b: bool) {
        self.devargs.same(&other.devargs)
    }

    fn dup(&self) -> (r: Self) {
        OvsDpdkConfig {
            devargs: self.devargs.dup(),
        }
    }
}

/// An Open vSwitch internal interface.
#[derive(Debug, PartialEq)]
pub struct OvsInterface {
    pub base: BaseInterface,
    pub patch: Option<OvsPatchConfig>,
    pub dpdk: Option<OvsDpdkConfig>,
}

/// The mathematical value of a [`OvsInterface`].
#[verifier::ext_equal]
pub struct OvsInterfaceView {
    pub base: BaseInterfaceView,
    pub patch: Option<OvsPatchConfigView>,
    pub dpdk: Option<OvsDpdkConfigView>,
}

impl DeepView for OvsInterface {
    type V = OvsInterfaceView;

    open spec fn deep_view(&self) -> OvsInterfaceView {
        OvsInterfaceView {
            base: self.base.deep_view(),
            patch: self.patch.deep_view(),
            dpdk: self.dpdk.deep_view(),
        }
    }
}

impl View for OvsInterface {
    type V = OvsInterfaceView;

    open spec fn view(&self) -> OvsInterfaceView {
        self.deep_view()
    }
}

impl Data for OvsInterface {
    fn same(&self, other: &Self) -> (b: bool) {
        self.base.same(&other.base)
            && self.patch.same(&other.patch)
            && self.dpdk.same(&other.dpdk)
    }

    fn dup(&self) -> (r: Self) {
        OvsInterface {
            base: self.base.dup(),
            patch: self.patch.dup(),
            dpdk: self.dpdk.dup(),
        }
    }
}
} // verus!
