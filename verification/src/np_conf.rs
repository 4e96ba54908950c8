//! The network configuration that the nispor plugin hands to the kernel.

use crate::data::Data;
use vstd::prelude::*;

verus! {

/// The type of an interface as the kernel knows it.
#[derive(Clone, Copy, Debug, PartialEq, Eq, Structural)]
pub enum NpIfaceType {
    Bridge,
    Bond,
    Ethernet,
    Veth,
    Vlan,
    Unknown,
}

impl DeepView for NpIfaceType {
    type V = NpIfaceType;

    open spec fn deep_view(&self) -> NpIfaceType {
        *self
    }
}

impl Data for NpIfaceType {
    fn same(&self, other: &Self) -> (b: bool) {
        *self == *other
    }

    fn dup(&self) -> (r: Self) {
        *self
    }
}

/// What is to become of an interface.
#[derive(Clone, Copy, Debug, PartialEq, Eq, Structural)]
pub enum NpIfaceState {
    /// Bring it up.
    Up,
    /// Remove it.
    Absent,
    /// Nothing is stated.
    Unknown,
}

impl DeepView for NpIfaceState {
    type V = NpIfaceState;

    open spec fn deep_view(&self) -> NpIfaceState {
        *self
    }
}

impl Data for NpIfaceState {
    fn same(&self, other: &Self) -> (b: bool) {
        *self == *other
    }

    fn dup(&self) -> (r: Self) {
        *self
    }
}

/// An address to be set on an interface.
#[derive(Debug, PartialEq)]
pub struct NpIpAddrConf {
    pub address: String,
    pub prefix_len: u8,
    /// How long the address is valid; empty for ever.
    pub valid_lft: String,
    /// How long the address is preferred; empty for ever.
    pub preferred_lft: String,
}

/// The mathematical value of a [`NpIpAddrConf`].
#[verifier::ext_equal]
pub struct NpIpAddrConfView {
    pub address: Seq<char>,
    pub prefix_len: u8,
    pub valid_lft: Seq<char>,
    pub preferred_lft: Seq<char>,
}

impl DeepView for NpIpAddrConf {
    type V = NpIpAddrConfView;

    open spec fn deep_view(&self) -> NpIpAddrConfView {
        NpIpAddrConfView {
            address: self.address.deep_view(),
            prefix_len: self.prefix_len.deep_view(),
            valid_lft: self.valid_lft.deep_view(),
            preferred_lft: self.preferred_lft.deep_view(),
        }
    }
}

impl View for NpIpAddrConf {
    type V = NpIpAddrConfView;

    open spec fn view(&self) -> NpIpAddrConfView {
        self.deep_view()
    }
}

impl Data for NpIpAddrConf {
    fn same(&self, other: &Self) -> (b: bool) {
        self.address.same(&other.address)
            && self.prefix_len.same(&other.prefix_len)
            && self.valid_lft.same(&other.valid_lft)
            && self.preferred_lft.same(&other.preferred_lft)
    }

    fn dup(&self) -> (r: Self) {
        NpIpAddrConf {
            address: self.address.dup(),
            prefix_len: self.prefix_len.dup(),
            valid_lft: self.valid_lft.dup(),
            preferred_lft: self.preferred_lft.dup(),
        }
    }
}

/// The addresses of one family to be set on an interface.
#[derive(Debug, PartialEq)]
pub struct NpIpConf {
    pub addresses: Vec<NpIpAddrConf>,
}

/// The mathematical value of a [`NpIpConf`].
#[verifier::ext_equal]
pub struct NpIpConfView {
    pub addresses: Seq<NpIpAddrConfView>,
}

impl DeepView for NpIpConf {
    type V = NpIpConfView;

    open spec fn deep_view(&self) -> NpIpConfView {
        NpIpConfView {
            addresses: self.addresses.deep_view(),
        }
    }
}

impl View for NpIpConf {
    type V = NpIpConfView;

    open spec fn view(&self) -> NpIpConfView {
        self.deep_view()
    }
}

impl Data for NpIpConf {
    fn same(&self, other: &Self) -> (b: bool) {
        self.addresses.same(&other.addresses)
    }

    fn dup(&self) -> (r: Self) {
        NpIpConf {
            addresses: self.addresses.dup(),
        }
    }
}

/// The peer of a veth interface.
#[derive(Debug, PartialEq)]
pub struct NpVethConf {
    pub peer: String,
}

/// The mathematical value of a [`NpVethConf`].
#[verifier::ext_equal]
pub struct NpVethConfView {
    pub peer: Seq<char>,
}

impl DeepView for NpVethConf {
    type V = NpVethConfView;

    open spec fn deep_view(&self) -> NpVethConfView {
        NpVethConfView {
            peer: self.peer.deep_view(),
        }
    }
}

impl View for NpVethConf {
    type V = NpVethConfView;

    open spec fn view(&self) -> NpVethConfView {
        self.deep_view()
    }
}

impl Data for NpVethConf {
    fn same(&self, other: &Self) -> (b: bool) {
        self.peer.same(&other.peer)
    }

    fn dup(&self) -> (r: Self) {
        NpVethConf {
            peer: self.peer.dup(),
        }
    }
}

/// The VLAN settings of an interface.
#[derive(Debug, PartialEq)]
pub struct NpVlanConf {
    pub vlan_id: u16,
    pub base_iface: String,
}

/// The mathematical value of a [`NpVlanConf`].
#[verifier::ext_equal]
pub struct NpVlanConfView {
    pub vlan_id: u16,
    pub base_iface: Seq<char>,
}

impl DeepView for NpVlanConf {
    type V = NpVlanConfView;

    open spec fn deep_view(&self) -> NpVlanConfView {
        NpVlanConfView {
            vlan_id: self.vlan_id.deep_view(),
            base_iface: self.base_iface.deep_view(),
        }
    }
}

impl View for NpVlanConf {
    type V = NpVlanConfView;

    open spec fn view(&self) -> NpVlanConfView {
        self.deep_view()
    }
}

impl Data for NpVlanConf {
    fn same(&self, other: &Self) -> (b: bool) {
        self.vlan_id.same(&other.vlan_id)
            && self.base_iface.same(&other.base_iface)
    }

    fn dup(&self) -> (r: Self) {
        NpVlanConf {
            vlan_id: self.vlan_id.dup(),
            base_iface: self.base_iface.dup(),
        }
    }
}

/// What is to be done to one interface.
#[derive(Debug, PartialEq)]
pub struct NpIfaceConf {
    pub name: String,
    pub state: NpIfaceState,
    pub iface_type: Option<NpIfaceType>,
    pub controller: Option<String>,
    pub ipv4: Option<NpIpConf>,
    pub ipv6: Option<NpIpConf>,
    pub mac_address: Option<String>,
    pub veth: Option<NpVethConf>,
    pub vlan: Option<NpVlanConf>,
}

/// The mathematical value of a [`NpIfaceConf`].
#[verifier::ext_equal]
pub struct NpIfaceConfView {
    pub name: Seq<char>,
    pub state: NpIfaceState,
    pub iface_type: Option<NpIfaceType>,
    pub controller: Option<Seq<char>>,
    pub ipv4: Option<NpIpConfView>,
    pub ipv6: Option<NpIpConfView>,
    pub mac_address: Option<Seq<char>>,
    pub veth: Option<NpVethConfView>,
    pub vlan: Option<NpVlanConfView>,
}

impl DeepView for NpIfaceConf {
    type V = NpIfaceConfView;

    open spec fn deep_view(&self) -> NpIfaceConfView {
        NpIfaceConfView {
            name: self.name.deep_view(),
            state: self.state.deep_view(),
            iface_type: self.iface_type.deep_view(),
            controller: self.controller.deep_view(),
            ipv4: self.ipv4.deep_view(),
            ipv6: self.ipv6.deep_view(),
            mac_address: self.mac_address.deep_view(),
            veth: self.veth.deep_view(),
            vlan: self.vlan.deep_view(),
        }
    }
}

impl View for NpIfaceConf {
    type V = NpIfaceConfView;

    open spec fn view(&self) -> NpIfaceConfView {
        self.deep_view()
    }
}

impl Data for NpIfaceConf {
    fn same(&self, other: &Self) -> (b: bool) {
        self.name.same(&other.name)
            && self.state.same(&other.state)
            && self.iface_type.same(&other.iface_type)
            && self.controller.same(&other.controller)
            && self.ipv4.same(&other.ipv4)
            && self.ipv6.same(&other.ipv6)
            && self.mac_address.same(&other.mac_address)
            && self.veth.same(&other.veth)
            && self.vlan.same(&other.vlan)
    }

    fn dup(&self) -> (r: Self) {
        NpIfaceConf {
            name: self.name.dup(),
            state: self.state.dup(),
            iface_type: self.iface_type.dup(),
            controller: self.controller.dup(),
            ipv4: self.ipv4.dup(),
            ipv6: self.ipv6.dup(),
            mac_address: self.mac_address.dup(),
            veth: self.veth.dup(),
            vlan: self.vlan.dup(),
        }
    }
}

/// What is to be done to the interfaces, in the order given.
#[derive(Debug, PartialEq)]
pub struct NpNetConf {
    pub ifaces: Option<Vec<NpIfaceConf>>,
}

/// The mathematical value of a [`NpNetConf`].
#[verifier::ext_equal]
pub struct NpNetConfView {
    pub ifaces: Option<Seq<NpIfaceConfView>>,
}

impl DeepView for NpNetConf {
    type V = NpNetConfView;

    open spec fn deep_view(&self) -> NpNetConfView {
        NpNetConfView {
            ifaces: self.ifaces.deep_view(),
        }
    }
}

impl View for NpNetConf {
    type V = NpNetConfView;

    open spec fn view(&self) -> NpNetConfView {
        self.deep_view()
    }
}

impl Data for NpNetConf {
    fn same(&self, other: &Self) -> (b: bool) {
        self.ifaces.same(&other.ifaces)
    }

    fn dup(&self) -> (r: Self) {
        NpNetConf {
            ifaces: self.ifaces.dup(),
        }
    }
}
} // verus!
