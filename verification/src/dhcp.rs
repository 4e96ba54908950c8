//! DHCP client settings and leases exchanged with the DHCP plugin.

use crate::data::Data;
use vstd::prelude::*;

verus! {

/// Whether the DHCPv4 client runs on an interface.
#[derive(Debug, PartialEq)]
pub struct NipartDhcpConfigV4 {
    pub iface: String,
    pub enabled: bool,
}

/// The mathematical value of a [`NipartDhcpConfigV4`].
#[verifier::ext_equal]
pub struct NipartDhcpConfigV4View {
    pub iface: Seq<char>,
    pub enabled: bool,
}

impl DeepView for NipartDhcpConfigV4 {
    type V = NipartDhcpConfigV4View;

    open spec fn deep_view(&self) -> NipartDhcpConfigV4View {
        NipartDhcpConfigV4View {
            iface: self.iface.deep_view(),
            enabled: self.enabled.deep_view(),
        }
    }
}

impl View for NipartDhcpConfigV4 {
    type V = NipartDhcpConfigV4View;

    open spec fn view(&self) -> NipartDhcpConfigV4View {
        self.deep_view()
    }
}

impl Data for NipartDhcpConfigV4 {
    fn same(&self, other: &Self) -> (b: bool) {
        self.iface.same(&other.iface)
            && self.enabled.same(&other.enabled)
    }

    fn dup(&self) -> (r: Self) {
        NipartDhcpConfigV4 {
            iface: self.iface.dup(),
            enabled: self.enabled.dup(),
        }
    }
}

/// Whether the DHCPv6 client runs on an interface.
#[derive(Debug, PartialEq)]
pub struct NipartDhcpConfigV6 {
    pub iface: String,
    pub enabled: bool,
}

/// The mathematical value of a [`NipartDhcpConfigV6`].
#[verifier::ext_equal]
pub struct NipartDhcpConfigV6View {
    pub iface: Seq<char>,
    pub enabled: bool,
}

impl DeepView for NipartDhcpConfigV6 {
    type V = NipartDhcpConfigV6View;

    open spec fn deep_view(&self) -> NipartDhcpConfigV6View {
        NipartDhcpConfigV6View {
            iface: self.iface.deep_view(),
            enabled: self.enabled.deep_view(),
        }
    }
}

impl View for NipartDhcpConfigV6 {
    type V = NipartDhcpConfigV6View;

    open spec fn view(&self) -> NipartDhcpConfigV6View {
        self.deep_view()
    }
}

impl Data for NipartDhcpConfigV6 {
    fn same(&self, other: &Self) -> (b: bool) {
        self.iface.same(&other.iface)
            && self.enabled.same(&other.enabled)
    }

    fn dup(&self) -> (r: Self) {
        NipartDhcpConfigV6 {
            iface: self.iface.dup(),
            enabled: self.enabled.dup(),
        }
    }
}

/// A DHCP client setting for one interface and one address family.
#[derive(Debug, PartialEq)]
pub enum NipartDhcpConfig {
    V4(NipartDhcpConfigV4),
    V6(NipartDhcpConfigV6),
}

/// The mathematical value of a [`NipartDhcpConfig`].
#[verifier::ext_equal]
pub enum NipartDhcpConfigView {
    V4(NipartDhcpConfigV4View),
    V6(NipartDhcpConfigV6View),
}

impl DeepView for NipartDhcpConfig {
    type V = NipartDhcpConfigView;

    open spec fn deep_view(&self) -> NipartDhcpConfigView {
        match self {
            Self::V4(a0) => NipartDhcpConfigView::V4(a0.deep_view()),
            Self::V6(a0) => NipartDhcpConfigView::V6(a0.deep_view()),
        }
    }
}

impl View for NipartDhcpConfig {
    type V = NipartDhcpConfigView;

    open spec fn view(&self) -> NipartDhcpConfigView {
        self.deep_view()
    }
}

impl Data for NipartDhcpConfig {
    fn same(&self, other: &Self) -> (b: bool) {
        match (self, other) {
            (Self::V4(a0), Self::V4(b0)) => a0.same(b0),
            (Self::V6(a0), Self::V6(b0)) => a0.same(b0),
            _ => false,
        }
    }

    fn dup(&self) -> (r: Self) {
        match self {
            Self::V4(a0) => Self::V4(a0.dup()),
            Self::V6(a0) => Self::V6(a0.dup()),
        }
    }
}

/// An IPv4 lease acquired on an interface.
#[derive(Debug, PartialEq)]
pub struct NipartDhcpLeaseV4 {
    pub iface: String,
    /// The leased address in dotted notation.
    pub ip: String,
    pub prefix_length: u8,
    /// Lease time in seconds.
    pub lease_time: u32,
}

/// The mathematical value of a [`NipartDhcpLeaseV4`].
#[verifier::ext_equal]
pub struct NipartDhcpLeaseV4View {
    pub iface: Seq<char>,
    pub ip: Seq<char>,
    pub prefix_length: u8,
    pub lease_time: u32,
}

impl DeepView for NipartDhcpLeaseV4 {
    type V = NipartDhcpLeaseV4View;

    open spec fn deep_view(&self) -> NipartDhcpLeaseV4View {
        NipartDhcpLeaseV4View {
            iface: self.iface.deep_view(),
            ip: self.ip.deep_view(),
            prefix_length: self.prefix_length.deep_view(),
            lease_time: self.lease_time.deep_view(),
        }
    }
}

impl View for NipartDhcpLeaseV4 {
    type V = NipartDhcpLeaseV4View;

    open spec fn view(&self) -> NipartDhcpLeaseV4View {
        self.deep_view()
    }
}

impl Data for NipartDhcpLeaseV4 {
    fn same(&self, other: &Self) -> (b: bool) {
        self.iface.same(&other.iface)
            && self.ip.same(&other.ip)
            && self.prefix_length.same(&other.prefix_length)
            && self.lease_time.same(&other.lease_time)
    }

    fn dup(&self) -> (r: Self) {
        NipartDhcpLeaseV4 {
            iface: self.iface.dup(),
            ip: self.ip.dup(),
            prefix_length: self.prefix_length.dup(),
            lease_time: self.lease_time.dup(),
        }
    }
}

/// An IPv6 lease acquired on an interface.
#[derive(Debug, PartialEq)]
pub struct NipartDhcpLeaseV6 {
    pub iface: String,
    /// The leased address in colon notation.
    pub ip: String,
    pub prefix_length: u8,
    /// Lease time in seconds.
    pub lease_time: u32,
}

/// The mathematical value of a [`NipartDhcpLeaseV6`].
#[verifier::ext_equal]
pub struct NipartDhcpLeaseV6View {
    pub iface: Seq<char>,
    pub ip: Seq<char>,
    pub prefix_length: u8,
    pub lease_time: u32,
}

impl DeepView for NipartDhcpLeaseV6 {
    type V = NipartDhcpLeaseV6View;

    open spec fn deep_view(&self) -> NipartDhcpLeaseV6View {
        NipartDhcpLeaseV6View {
            iface: self.iface.deep_view(),
            ip: self.ip.deep_view(),
            prefix_length: self.prefix_length.deep_view(),
            lease_time: self.lease_time.deep_view(),
        }
    }
}

impl View for NipartDhcpLeaseV6 {
    type V = NipartDhcpLeaseV6View;

    open spec fn view(&self) -> NipartDhcpLeaseV6View {
        self.deep_view()
    }
}

impl Data for NipartDhcpLeaseV6 {
    fn same(&self, other: &Self) -> (b: bool) {
        self.iface.same(&other.iface)
            && self.ip.same(&other.ip)
            && self.prefix_length.same(&other.prefix_length)
            && self.lease_time.same(&other.lease_time)
    }

    fn dup(&self) -> (r: Self) {
        NipartDhcpLeaseV6 {
            iface: self.iface.dup(),
            ip: self.ip.dup(),
            prefix_length: self.prefix_length.dup(),
            lease_time: self.lease_time.dup(),
        }
    }
}

/// A lease of either address family.
#[derive(Debug, PartialEq)]
pub enum NipartDhcpLease {
    V4(NipartDhcpLeaseV4),
    V6(NipartDhcpLeaseV6),
}

/// The mathematical value of a [`NipartDhcpLease`].
#[verifier::ext_equal]
pub enum NipartDhcpLeaseView {
    V4(NipartDhcpLeaseV4View),
    V6(NipartDhcpLeaseV6View),
}

impl DeepView for NipartDhcpLease {
    type V = NipartDhcpLeaseView;

    open spec fn deep_view(&self) -> NipartDhcpLeaseView {
        match self {
            Self::V4(a0) => NipartDhcpLeaseView::V4(a0.deep_view()),
            Self::V6(a0) => NipartDhcpLeaseView::V6(a0.deep_view()),
        }
    }
}

impl View for NipartDhcpLease {
    type V = NipartDhcpLeaseView;

    open spec fn view(&self) -> NipartDhcpLeaseView {
        self.deep_view()
    }
}

impl Data for NipartDhcpLease {
    fn same(&self, other: &Self) -> (b: bool) {
        match (self, other) {
            (Self::V4(a0), Self::V4(b0)) => a0.same(b0),
            (Self::V6(a0), Self::V6(b0)) => a0.same(b0),
            _ => false,
        }
    }

    fn dup(&self) -> (r: Self) {
        match self {
            Self::V4(a0) => Self::V4(a0.dup()),
            Self::V6(a0) => Self::V6(a0.dup()),
        }
    }
}

impl NipartDhcpConfigV4 {
    /// The setting of the DHCPv4 client of an interface.
    pub fn new(iface: String, enabled: bool) -> (r: Self)
        ensures
            r@ == (NipartDhcpConfigV4View { iface: iface@, enabled }),
    {
        NipartDhcpConfigV4 { iface, enabled }
    }
}

impl NipartDhcpConfigV6 {
    /// The setting of the DHCPv6 client of an interface.
    pub fn new(iface: String, enabled: bool) -> (r: Self)
        ensures
            r@ == (NipartDhcpConfigV6View { iface: iface@, enabled }),
    {
        NipartDhcpConfigV6 { iface, enabled }
    }
}

impl NipartDhcpConfigView {
    /// The text a setting is shown as: the interface, the address family
    /// and whether the client is on.
    pub open spec fn text(self) -> Seq<char> {
        match self {
            NipartDhcpConfigView::V4(c) => c.iface + (if c.enabled {
                ":dhcpv4:on"@
            } else {
                ":dhcpv4:off"@
            }),
            NipartDhcpConfigView::V6(c) => c.iface + (if c.enabled {
                ":dhcpv6:on"@
            } else {
                ":dhcpv6:off"@
            }),
        }
    }
}

impl NipartDhcpConfig {
    /// The text this setting is shown as.
    pub fn to_text(&self) -> (s: String)
        ensures
            s@ == self@.text(),
    {
        match self {
            NipartDhcpConfig::V4(c) => {
                let mut s = c.iface.dup();
                s.append(
                    if c.enabled {
                        ":dhcpv4:on"
                    } else {
                        ":dhcpv4:off"
                    },
                );
                s
            },
            NipartDhcpConfig::V6(c) => {
                let mut s = c.iface.dup();
                s.append(
                    if c.enabled {
                        ":dhcpv6:on"
                    } else {
                        ":dhcpv6:off"
                    },
                );
                s
            },
        }
    }
}

} // verus!
