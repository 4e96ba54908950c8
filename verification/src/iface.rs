//! Properties shared by interfaces of every type.

use crate::data::Data;
use vstd::prelude::*;

verus! {

/// The type of an interface.
#[derive(Clone, Copy, Debug, PartialEq, Eq, Structural)]
pub enum InterfaceType {
    Bond,
    LinuxBridge,
    Ethernet,
    Veth,
    Vlan,
    OvsBridge,
    OvsInterface,
    Loopback,
    Unknown,
}

impl DeepView for InterfaceType {
    type V = InterfaceType;

    open spec fn deep_view(&self) -> InterfaceType {
        *self
    }
}

impl Data for InterfaceType {
    fn same(&self, other: &Self) -> (b: bool) {
        *self == *other
    }

    fn dup(&self) -> (r: Self) {
        *self
    }
}

/// The administrative state of an interface.
#[derive(Clone, Copy, Debug, PartialEq, Eq, Structural)]
pub enum InterfaceState {
    Up,
    Down,
    Absent,
    Ignore,
    Unknown,
}

impl DeepView for InterfaceState {
    type V = InterfaceState;

    open spec fn deep_view(&self) -> InterfaceState {
        *self
    }
}

impl Data for InterfaceState {
    fn same(&self, other: &Self) -> (b: bool) {
        *self == *other
    }

    fn dup(&self) -> (r: Self) {
        *self
    }
}

/// IPv4 settings of an interface.
#[derive(Debug, PartialEq)]
pub struct InterfaceIpv4 {
    pub enabled: bool,
    pub dhcp: Option<bool>,
    pub dhcp_client_id: Option<String>,
    /// Static addresses, each with its prefix length.
    pub addresses: Option<Vec<(String, u8)>>,
}

/// The mathematical value of a [`InterfaceIpv4`].
#[verifier::ext_equal]
pub struct InterfaceIpv4View {
    pub enabled: bool,
    pub dhcp: Option<bool>,
    pub dhcp_client_id: Option<Seq<char>>,
    pub addresses: Option<Seq<(Seq<char>, u8)>>,
}

impl DeepView for InterfaceIpv4 {
    type V = InterfaceIpv4View;

    open spec fn deep_view(&self) -> InterfaceIpv4View {
        InterfaceIpv4View {
            enabled: self.enabled.deep_view(),
            dhcp: self.dhcp.deep_view(),
            dhcp_client_id: self.dhcp_client_id.deep_view(),
            addresses: self.addresses.deep_view(),
        }
    }
}

impl View for InterfaceIpv4 {
    type V = InterfaceIpv4View;

    open spec fn view(&self) -> InterfaceIpv4View {
        self.deep_view()
    }
}

impl Data for InterfaceIpv4 {
    fn same(&self, other: &Self) -> (b: bool) {
        self.enabled.same(&other.enabled)
            && self.dhcp.same(&other.dhcp)
            && self.dhcp_client_id.same(&other.dhcp_client_id)
            && self.addresses.same(&other.addresses)
    }

    fn dup(&self) -> (r: Self) {
        InterfaceIpv4 {
            enabled: self.enabled.dup(),
            dhcp: self.dhcp.dup(),
            dhcp_client_id: self.dhcp_client_id.dup(),
            addresses: self.addresses.dup(),
        }
    }
}

/// IPv6 settings of an interface.
#[derive(Debug, PartialEq)]
pub struct InterfaceIpv6 {
    pub enabled: bool,
    pub dhcp: Option<bool>,
    pub dhcp_duid: Option<String>,
    /// Static addresses, each with its prefix length.
    pub addresses: Option<Vec<(String, u8)>>,
}

/// The mathematical value of a [`InterfaceIpv6`].
#[verifier::ext_equal]
pub struct InterfaceIpv6View {
    pub enabled: bool,
    pub dhcp: Option<bool>,
    pub dhcp_duid: Option<Seq<char>>,
    pub addresses: Option<Seq<(Seq<char>, u8)>>,
}

impl DeepView for InterfaceIpv6 {
    type V = InterfaceIpv6View;

    open spec fn deep_view(&self) -> InterfaceIpv6View {
        InterfaceIpv6View {
            enabled: self.enabled.deep_view(),
            dhcp: self.dhcp.deep_view(),
            dhcp_duid: self.dhcp_duid.deep_view(),
            addresses: self.addresses.deep_view(),
        }
    }
}

impl View for InterfaceIpv6 {
    type V = InterfaceIpv6View;

    open spec fn view(&self) -> InterfaceIpv6View {
        self.deep_view()
    }
}

impl Data for InterfaceIpv6 {
    fn same(&self, other: &Self) -> (b: bool) {
        self.enabled.same(&other.enabled)
            && self.dhcp.same(&other.dhcp)
            && self.dhcp_duid.same(&other.dhcp_duid)
            && self.addresses.same(&other.addresses)
    }

    fn dup(&self) -> (r: Self) {
        InterfaceIpv6 {
            enabled: self.enabled.dup(),
            dhcp: self.dhcp.dup(),
            dhcp_duid: self.dhcp_duid.dup(),
            addresses: self.addresses.dup(),
        }
    }
}

/// What every interface has, whatever its type.
#[derive(Debug, PartialEq)]
pub struct BaseInterface {
    pub name: String,
    pub iface_type: InterfaceType,
    pub state: InterfaceState,
    /// Name of the bridge or bond this interface is a port of.
    pub controller: Option<String>,
    pub mac_address: Option<String>,
    pub ipv4: Option<InterfaceIpv4>,
    pub ipv6: Option<InterfaceIpv6>,
    /// Interfaces with a smaller number are brought up first.
    pub up_priority: u32,
}

/// The mathematical value of a [`BaseInterface`].
#[verifier::ext_equal]
pub struct BaseInterfaceView {
    pub name: Seq<char>,
    pub iface_type: InterfaceType,
    pub state: InterfaceState,
    pub controller: Option<Seq<char>>,
    pub mac_address: Option<Seq<char>>,
    pub ipv4: Option<InterfaceIpv4View>,
    pub ipv6: Option<InterfaceIpv6View>,
    pub up_priority: u32,
}

impl DeepView for BaseInterface {
    type V = BaseInterfaceView;

    open spec fn deep_view(&self) -> BaseInterfaceView {
        BaseInterfaceView {
            name: self.name.deep_view(),
            iface_type: self.iface_type.deep_view(),
            state: self.state.deep_view(),
            controller: self.controller.deep_view(),
            mac_address: self.mac_address.deep_view(),
            ipv4: self.ipv4.deep_view(),
            ipv6: self.ipv6.deep_view(),
            up_priority: self.up_priority.deep_view(),
        }
    }
}

impl View for BaseInterface {
    type V = BaseInterfaceView;

    open spec fn view(&self) -> BaseInterfaceView {
        self.deep_view()
    }
}

impl Data for BaseInterface {
    fn same(&self, other: &Self) -> (b: bool) {
        self.name.same(&other.name)
            && self.iface_type.same(&other.iface_type)
            && self.state.same(&other.state)
            && self.controller.same(&other.controller)
            && self.mac_address.same(&other.mac_address)
            && self.ipv4.same(&other.ipv4)
            && self.ipv6.same(&other.ipv6)
            && self.up_priority.same(&other.up_priority)
    }

    fn dup(&self) -> (r: Self) {
        BaseInterface {
            name: self.name.dup(),
            iface_type: self.iface_type.dup(),
            state: self.state.dup(),
            controller: self.controller.dup(),
            mac_address: self.mac_address.dup(),
            ipv4: self.ipv4.dup(),
            ipv6: self.ipv6.dup(),
            up_priority: self.up_priority.dup(),
        }
    }
}

/// The veth part of an ethernet interface.
#[derive(Debug, PartialEq)]
pub struct VethConfig {
    pub peer: String,
}

/// The mathematical value of a [`VethConfig`].
#[verifier::ext_equal]
pub struct VethConfigView {
    pub peer: Seq<char>,
}

impl DeepView for VethConfig {
    type V = VethConfigView;

    open spec fn deep_view(&self) -> VethConfigView {
        VethConfigView {
            peer: self.peer.deep_view(),
        }
    }
}

impl View for VethConfig {
    type V = VethConfigView;

    open spec fn view(&self) -> VethConfigView {
        self.deep_view()
    }
}

impl Data for VethConfig {
    fn same(&self, other: &Self) -> (b: bool) {
        self.peer.same(&other.peer)
    }

    fn dup(&self) -> (r: Self) {
        VethConfig {
            peer: self.peer.dup(),
        }
    }
}

/// An ethernet or veth interface.
#[derive(Debug, PartialEq)]
pub struct EthernetInterface {
    pub base: BaseInterface,
    pub veth: Option<VethConfig>,
}

/// The mathematical value of a [`EthernetInterface`].
#[verifier::ext_equal]
pub struct EthernetInterfaceView {
    pub base: BaseInterfaceView,
    pub veth: Option<VethConfigView>,
}

impl DeepView for EthernetInterface {
    type V = EthernetInterfaceView;

    open spec fn deep_view(&self) -> EthernetInterfaceView {
        EthernetInterfaceView {
            base: self.base.deep_view(),
            veth: self.veth.deep_view(),
        }
    }
}

impl View for EthernetInterface {
    type V = EthernetInterfaceView;

    open spec fn view(&self) -> EthernetInterfaceView {
        self.deep_view()
    }
}

impl Data for EthernetInterface {
    fn same(&self, other: &Self) -> (b: bool) {
        self.base.same(&other.base)
            && self.veth.same(&other.veth)
    }

    fn dup(&self) -> (r: Self) {
        EthernetInterface {
            base: self.base.dup(),
            veth: self.veth.dup(),
        }
    }
}

/// The VLAN part of a VLAN interface.
#[derive(Debug, PartialEq)]
pub struct VlanConfig {
    pub base_iface: String,
    pub id: u16,
}

/// The mathematical value of a [`VlanConfig`].
#[verifier::ext_equal]
pub struct VlanConfigView {
    pub base_iface: Seq<char>,
    pub id: u16,
}

impl DeepView for VlanConfig {
    type V = VlanConfigView;

    open spec fn deep_view(&self) -> VlanConfigView {
        VlanConfigView {
            base_iface: self.base_iface.deep_view(),
            id: self.id.deep_view(),
        }
    }
}

impl View for VlanConfig {
    type V = VlanConfigView;

    open spec fn view(&self) -> VlanConfigView {
        self.deep_view()
    }
}

impl Data for VlanConfig {
    fn same(&self, other: &Self) -> (b: bool) {
        self.base_iface.same(&other.base_iface)
            && self.id.same(&other.id)
    }

    fn dup(&self) -> (r: Self) {
        VlanConfig {
            base_iface: self.base_iface.dup(),
            id: self.id.dup(),
        }
    }
}

/// A VLAN interface.
#[derive(Debug, PartialEq)]
pub struct VlanInterface {
    pub base: BaseInterface,
    pub vlan: Option<VlanConfig>,
}

/// The mathematical value of a [`VlanInterface`].
#[verifier::ext_equal]
pub struct VlanInterfaceView {
    pub base: BaseInterfaceView,
    pub vlan: Option<VlanConfigView>,
}

impl DeepView for VlanInterface {
    type V = VlanInterfaceView;

    open spec fn deep_view(&self) -> VlanInterfaceView {
        VlanInterfaceView {
            base: self.base.deep_view(),
            vlan: self.vlan.deep_view(),
        }
    }
}

impl View for VlanInterface {
    type V = VlanInterfaceView;

    open spec fn view(&self) -> VlanInterfaceView {
        self.deep_view()
    }
}

impl Data for VlanInterface {
    fn same(&self, other: &Self) -> (b: bool) {
        self.base.same(&other.base)
            && self.vlan.same(&other.vlan)
    }

    fn dup(&self) -> (r: Self) {
        VlanInterface {
            base: self.base.dup(),
            vlan: self.vlan.dup(),
        }
    }
}

/// An interface of a type that has no settings of its own here.
#[derive(Debug, PartialEq)]
pub struct UnknownInterface {
    pub base: BaseInterface,
}

/// The mathematical value of a [`UnknownInterface`].
#[verifier::ext_equal]
pub struct UnknownInterfaceView {
    pub base: BaseInterfaceView,
}

impl DeepView for UnknownInterface {
    type V = UnknownInterfaceView;

    open spec fn deep_view(&self) -> UnknownInterfaceView {
        UnknownInterfaceView {
            base: self.base.deep_view(),
        }
    }
}

impl View for UnknownInterface {
    type V = UnknownInterfaceView;

    open spec fn view(&self) -> UnknownInterfaceView {
        self.deep_view()
    }
}

impl Data for UnknownInterface {
    fn same(&self, other: &Self) -> (b: bool) {
        self.base.same(&other.base)
    }

    fn dup(&self) -> (r: Self) {
        UnknownInterface {
            base: self.base.dup(),
        }
    }
}

impl InterfaceType {
    /// Whether interfaces of this type live in user space, not in the kernel.
    pub open spec fn userspace(self) -> bool {
        self == InterfaceType::OvsBridge
    }

    /// Whether interfaces of this type live in user space, not in the kernel.
    pub fn is_userspace(&self) -> (b: bool)
        ensures
            b == self.userspace(),
    {
        match self {
            InterfaceType::OvsBridge => true,
            _ => false,
        }
    }
}

impl BaseInterfaceView {
    /// Whether the interface may hold IP settings: a port of a bridge or
    /// bond may not, unless it is an Open vSwitch internal interface.
    pub open spec fn can_have_ip(self) -> bool {
        self.controller is None || self.iface_type == InterfaceType::OvsInterface
    }

    /// These properties after merging `other` into them: what `other`
    /// states replaces what was there.
    pub open spec fn updated(self, other: BaseInterfaceView) -> BaseInterfaceView {
        BaseInterfaceView {
            name: self.name,
            iface_type: if other.iface_type != InterfaceType::Unknown {
                other.iface_type
            } else {
                self.iface_type
            },
            state: if other.state != InterfaceState::Unknown {
                other.state
            } else {
                self.state
            },
            controller: if other.controller is Some {
                other.controller
            } else {
                self.controller
            },
            mac_address: if other.mac_address is Some {
                other.mac_address
            } else {
                self.mac_address
            },
            ipv4: if other.ipv4 is Some {
                other.ipv4
            } else {
                self.ipv4
            },
            ipv6: if other.ipv6 is Some {
                other.ipv6
            } else {
                self.ipv6
            },
            up_priority: self.up_priority,
        }
    }

    /// Whether `current` holds everything that these desired properties
    /// state.
    pub open spec fn satisfied_by(self, current: BaseInterfaceView) -> bool {
        &&& self.name == current.name
        &&& (self.iface_type == InterfaceType::Unknown || self.iface_type == current.iface_type)
        &&& (self.state == InterfaceState::Unknown || self.state == current.state)
        &&& (self.controller is Some ==> self.controller == current.controller)
        &&& (self.mac_address is Some ==> self.mac_address == current.mac_address)
        &&& (self.ipv4 is Some ==> self.ipv4 == current.ipv4)
        &&& (self.ipv6 is Some ==> self.ipv6 == current.ipv6)
    }
}

impl BaseInterface {
    /// Whether the interface may hold IP settings.
    pub fn can_have_ip(&self) -> (b: bool)
        ensures
            b == self@.can_have_ip(),
    {
        self.controller.is_none() || match self.iface_type {
            InterfaceType::OvsInterface => true,
            _ => false,
        }
    }

    /// Merges `other` into these properties.
    pub fn update(&mut self, other: &BaseInterface)
        ensures
            final(self)@ == old(self)@.updated(other@),
    {
        match other.iface_type {
            InterfaceType::Unknown => {},
            t => {
                self.iface_type = t;
            },
        }
        match other.state {
            InterfaceState::Unknown => {},
            s => {
                self.state = s;
            },
        }
        if other.controller.is_some() {
            self.controller = other.controller.dup();
        }
        if other.mac_address.is_some() {
            self.mac_address = other.mac_address.dup();
        }
        if other.ipv4.is_some() {
            self.ipv4 = other.ipv4.dup();
        }
        if other.ipv6.is_some() {
            self.ipv6 = other.ipv6.dup();
        }
    }

    /// Whether `current` holds everything that these desired properties
    /// state.
    pub fn is_satisfied_by(&self, current: &BaseInterface) -> (b: bool)
        ensures
            b == self@.satisfied_by(current@),
    {
        let type_ok = match self.iface_type {
            InterfaceType::Unknown => true,
            t => t == current.iface_type,
        };
        let state_ok = match self.state {
            InterfaceState::Unknown => true,
            s => s == current.state,
        };
        self.name.same(&current.name) && type_ok && state_ok && (self.controller.is_none()
            || self.controller.same(&current.controller)) && (self.mac_address.is_none()
            || self.mac_address.same(&current.mac_address)) && (self.ipv4.is_none()
            || self.ipv4.same(&current.ipv4)) && (self.ipv6.is_none() || self.ipv6.same(
            &current.ipv6,
        ))
    }
}

} // verus!
