//! The verified core of a daemon that configures the network of a host.
//!
//! A user hands the daemon a description of the network as it should be.
//! The daemon compares it with the network as it is, has its plugins change
//! what differs, and checks that the network then is as desired.
//!
//! The crate holds what the daemon decides and computes, and nothing that
//! waits, reads or sends:
//!
//! - the state model: [`NetworkState`], its merging ([`NetworkState::merge_states`],
//!   [`NetworkState::update_state`]), its difference ([`NetworkState::gen_diff`]) and
//!   its comparison with what is found ([`MergedNetworkState::verify`]);
//! - the events that users, daemon and plugins exchange ([`NipartEvent`]);
//! - the commander, which serves every request by a [`WorkFlow`] of steps
//!   ([`process_event`], [`process_workflow_queue`]);
//! - where the switch delivers the events ([`deliver`]);
//! - what the nispor plugin hands to the kernel ([`plugin_nispor`]);
//! - the decisions of the command line tool ([`ShowCommand`]).
//!
//! Every type of the data model has a mathematical value, its view, and
//! the contracts of the functions are stated over these values. What holds
//! of a workflow over its whole life is proved in [`lifecycle`], that it
//! holds of every workflow in the queue in [`serving`], and that
//! applying a difference gives what was desired in [`round_trip`].

pub mod backoff;
pub mod commander;
pub mod config;
pub mod data;
pub mod dhcp;
pub mod dns;
pub mod error;
pub mod event;
pub mod frame;
pub mod hostname;
pub mod iface;
pub mod ifaces;
pub mod json;
pub mod lifecycle;
pub mod log_entry;
pub mod monitor;
pub mod names;
pub mod net_state;
pub mod np_conf;
pub mod options;
pub mod ovn;
pub mod ovs;
pub mod ovs_types;
pub mod ovsdb;
pub mod plugin;
pub mod plugin_nispor;
pub mod priority;
pub mod queue;
pub mod roles;
pub mod round_trip;
pub mod route;
pub mod serving;
pub mod show;
pub mod strmap;
pub mod switch;
pub mod text;
pub mod uuid;
pub mod validity;
pub mod workflow;

pub use crate::backoff::backoff;
pub use crate::commander::{
    log_to_user, process_event, process_plugin_event, process_user_event,
    process_workflow_queue,
    WORKFLOW_QUEUE_CHECK_INTERVAL,
};
pub use crate::data::Data;
pub use crate::dhcp::{
    NipartDhcpConfig, NipartDhcpConfigV4, NipartDhcpConfigV6, NipartDhcpLease, NipartDhcpLeaseV4,
    NipartDhcpLeaseV6,
};
pub use crate::dns::{DnsState, MergedDnsState};
pub use crate::error::{ErrorKind, NipartError};
pub use crate::event::{NipartEvent, NipartEventAddress, NipartUserEvent, DEFAULT_TIMEOUT};
pub use crate::hostname::{HostNameState, MergedHostNameState};
pub use crate::log_entry::NipartLogEntry;
pub use crate::iface::{
    BaseInterface, EthernetInterface, InterfaceIpv4, InterfaceIpv6, InterfaceState, InterfaceType,
    UnknownInterface, VethConfig, VlanConfig, VlanInterface,
};
pub use crate::ifaces::{Interface, Interfaces, MergedInterface, MergedInterfaces};
pub use crate::monitor::{NipartMonitorEvent, NipartMonitorKind, NipartMonitorRule};
pub use crate::net_state::{MergedNetworkState, NetworkState, OVN_BRIDGE_MAPPINGS_KEY};
pub use crate::options::{NipartApplyOption, NipartLogLevel, NipartQueryOption, NipartStateKind};
pub use crate::ovn::{MergedOvnConfiguration, OvnBridgeMapping, OvnConfiguration};
pub use crate::ovs_types::{
    OvsBridgeBondConfig, OvsBridgeConfig, OvsBridgeInterface, OvsBridgePortConfig,
    OvsDbIfaceConfig, OvsDpdkConfig, OvsInterface, OvsPatchConfig,
};
pub use crate::ovsdb::{MergedOvsDbGlobalConfig, OvsDbGlobalConfig};
pub use crate::plugin::{NipartPluginEvent, NipartPluginInfo, NipartRole};
pub use crate::queue::WorkFlowQueue;
pub use crate::roles::PluginRoles;
pub use crate::route::{MergedRouteRules, MergedRoutes, RouteEntry, RouteRuleEntry};
pub use crate::show::{CliError, CliErrorKind, ShowCommand, ShowMode};
pub use crate::switch::{deliver, not_found_reply, Delivery};
pub use crate::uuid::IdSource;
pub use crate::workflow::{ShareData, TaskKind, WorkFlow, WorkFlowKind, WorkFlowState, WorkFlowTask};
