use nipart::np_conf::{NpIfaceState, NpIfaceType};
use nipart::plugin_nispor::{
    apply_failure, delete_ifaces, desired_running_hostname, handle_apply, nipart_iface_to_np,
    nipart_iface_type_to_np, nispor_apply, nispor_apply_dhcp_lease, NipartPluginNispor,
    NisporRequest, PLUGIN_NAME, STATE_PRIORITY,
};
use nipart::{
    BaseInterface, ErrorKind, EthernetInterface, HostNameState, Interface, InterfaceIpv4,
    InterfaceState, InterfaceType, Interfaces, MergedInterface, MergedNetworkState, NetworkState,
    NipartApplyOption, NipartDhcpLease, NipartDhcpLeaseV4, NipartError, NipartEvent,
    NipartEventAddress, NipartPluginEvent, NipartQueryOption, NipartRole, NipartUserEvent,
    UnknownInterface, VethConfig, VlanConfig, VlanInterface,
};

fn base(name: &str, iface_type: InterfaceType, state: InterfaceState, up_priority: u32) -> BaseInterface {
    BaseInterface {
        name: name.to_string(),
        iface_type,
        state,
        controller: None,
        mac_address: None,
        ipv4: None,
        ipv6: None,
        up_priority,
    }
}

fn eth(name: &str, state: InterfaceState, up_priority: u32) -> Interface {
    Interface::Ethernet(EthernetInterface {
        base: base(name, InterfaceType::Ethernet, state, up_priority),
        veth: None,
    })
}

fn state_of(ifaces: Vec<Interface>) -> NetworkState {
    let mut s = NetworkState::new();
    s.interfaces = Interfaces { ifaces };
    s
}

fn opt() -> NipartApplyOption {
    NipartApplyOption { skip_verify: false, memory_only: false }
}

#[test]
fn interface_types_as_the_kernel_knows_them() {
    assert_eq!(nipart_iface_type_to_np(&InterfaceType::LinuxBridge), NpIfaceType::Bridge);
    assert_eq!(nipart_iface_type_to_np(&InterfaceType::Bond), NpIfaceType::Bond);
    assert_eq!(nipart_iface_type_to_np(&InterfaceType::Ethernet), NpIfaceType::Ethernet);
    assert_eq!(nipart_iface_type_to_np(&InterfaceType::Veth), NpIfaceType::Veth);
    assert_eq!(nipart_iface_type_to_np(&InterfaceType::Vlan), NpIfaceType::Vlan);
    assert_eq!(nipart_iface_type_to_np(&InterfaceType::OvsBridge), NpIfaceType::Unknown);
    assert_eq!(nipart_iface_type_to_np(&InterfaceType::OvsInterface), NpIfaceType::Unknown);
    assert_eq!(nipart_iface_type_to_np(&InterfaceType::Loopback), NpIfaceType::Unknown);
    assert_eq!(nipart_iface_type_to_np(&InterfaceType::Unknown), NpIfaceType::Unknown);
}

#[test]
fn an_interface_is_handed_on_with_its_settings() {
    let mut b = base("eth0", InterfaceType::Ethernet, InterfaceState::Up, 0);
    b.mac_address = Some("00:11:22:33:44:55".to_string());
    b.ipv4 = Some(InterfaceIpv4 {
        enabled: true,
        dhcp: Some(false),
        dhcp_client_id: None,
        addresses: Some(vec![("10.0.0.1".to_string(), 24), ("10.0.0.2".to_string(), 25)]),
    });
    let d = Interface::Ethernet(EthernetInterface { base: b, veth: None });
    let m = MergedInterface::new_desired(d, &Interfaces::new());
    let c = nipart_iface_to_np(&m).unwrap();
    assert_eq!(c.name, "eth0");
    assert_eq!(c.iface_type, Some(NpIfaceType::Ethernet));
    assert_eq!(c.state, NpIfaceState::Up);
    assert!(c.controller.is_none());
    assert_eq!(c.mac_address.as_deref(), Some("00:11:22:33:44:55"));
    let v4 = c.ipv4.unwrap();
    assert_eq!(v4.addresses.len(), 2);
    assert_eq!(v4.addresses[0].address, "10.0.0.1");
    assert_eq!(v4.addresses[0].prefix_len, 24);
    assert_eq!(v4.addresses[1].address, "10.0.0.2");
    assert_eq!(v4.addresses[1].prefix_len, 25);
    assert_eq!(v4.addresses[0].valid_lft, "");
    assert!(c.ipv6.unwrap().addresses.is_empty());
    assert!(c.veth.is_none());
    assert!(c.vlan.is_none());
}

#[test]
fn a_port_is_handed_on_without_addresses() {
    let mut b = base("eth0", InterfaceType::Ethernet, InterfaceState::Up, 0);
    b.controller = Some("br0".to_string());
    b.ipv4 = Some(InterfaceIpv4 { enabled: true, dhcp: None, dhcp_client_id: None, addresses: None });
    let m = MergedInterface::new_desired(Interface::Ethernet(EthernetInterface { base: b, veth: None }), &Interfaces::new());
    let c = nipart_iface_to_np(&m).unwrap();
    assert_eq!(c.controller.as_deref(), Some("br0"));
    assert!(c.ipv4.is_none());
    assert!(c.ipv6.is_none());
}

#[test]
fn an_ethernet_interface_with_veth_settings_is_a_veth() {
    let d = Interface::Ethernet(EthernetInterface {
        base: base("veth0", InterfaceType::Ethernet, InterfaceState::Up, 0),
        veth: Some(VethConfig { peer: "veth1".to_string() }),
    });
    let m = MergedInterface::new_desired(d, &Interfaces::new());
    let c = nipart_iface_to_np(&m).unwrap();
    assert_eq!(c.iface_type, Some(NpIfaceType::Veth));
    assert_eq!(c.veth.unwrap().peer, "veth1");
}

#[test]
fn a_vlan_is_handed_on_with_its_base_interface() {
    let d = Interface::Vlan(VlanInterface {
        base: base("eth0.100", InterfaceType::Vlan, InterfaceState::Up, 0),
        vlan: Some(VlanConfig { base_iface: "eth0".to_string(), id: 100 }),
    });
    let m = MergedInterface::new_desired(d, &Interfaces::new());
    let c = nipart_iface_to_np(&m).unwrap();
    assert_eq!(c.iface_type, Some(NpIfaceType::Vlan));
    let vlan = c.vlan.unwrap();
    assert_eq!(vlan.vlan_id, 100);
    assert_eq!(vlan.base_iface, "eth0");
}

#[test]
fn an_interface_to_be_removed_is_handed_on_by_name_and_type() {
    let mut b = base("eth0", InterfaceType::Ethernet, InterfaceState::Absent, 0);
    b.mac_address = Some("00:11:22:33:44:55".to_string());
    let current = Interfaces { ifaces: vec![eth("eth0", InterfaceState::Up, 0)] };
    let m = MergedInterface::new_desired(Interface::Ethernet(EthernetInterface { base: b, veth: None }), &current);
    let c = nipart_iface_to_np(&m).unwrap();
    assert_eq!(c.name, "eth0");
    assert_eq!(c.state, NpIfaceState::Absent);
    assert_eq!(c.iface_type, Some(NpIfaceType::Ethernet));
    assert!(c.mac_address.is_none());
    assert!(c.ipv4.is_none());
}

#[test]
fn an_interface_with_nothing_to_apply_is_a_bug() {
    let m = MergedInterface::new_current(eth("eth0", InterfaceState::Up, 0));
    let e = nipart_iface_to_np(&m).err().unwrap();
    assert_eq!(e.kind, ErrorKind::Bug);
    assert_eq!(e.msg, "nipart_iface_to_np() got MergedInterface with for_apply set to None: eth0");
}

#[test]
fn interfaces_come_up_by_priority_and_then_by_name() {
    let desired = state_of(vec![
        eth("eth2", InterfaceState::Up, 1),
        eth("eth1", InterfaceState::Up, 1),
        eth("eth0", InterfaceState::Up, 2),
        eth("br9", InterfaceState::Up, 0),
        eth("eth10", InterfaceState::Up, 1),
        eth("gone", InterfaceState::Absent, 0),
        Interface::Unknown(UnknownInterface { base: base("what", InterfaceType::Unknown, InterfaceState::Up, 0) }),
        eth("same", InterfaceState::Up, 0),
    ]);
    let current = state_of(vec![eth("same", InterfaceState::Up, 0), eth("gone", InterfaceState::Up, 0)]);
    let merged = MergedNetworkState::new(desired, current).unwrap();
    let conf = nispor_apply(&merged, opt());
    let names: Vec<String> = conf.ifaces.unwrap().iter().map(|c| c.name.clone()).collect();
    assert_eq!(names, vec!["br9", "eth1", "eth10", "eth2", "eth0"]);
}

#[test]
fn nothing_to_apply_gives_an_empty_list() {
    let merged = MergedNetworkState::new(NetworkState::new(), NetworkState::new()).unwrap();
    assert_eq!(nispor_apply(&merged, opt()).ifaces.unwrap().len(), 0);
}

#[test]
fn deleting_one_end_of_a_veth_pair_is_enough() {
    let veth = |name: &str, peer: &str, state: InterfaceState| {
        Interface::Ethernet(EthernetInterface {
            base: base(name, InterfaceType::Veth, state, 0),
            veth: Some(VethConfig { peer: peer.to_string() }),
        })
    };
    let desired = state_of(vec![
        eth("veth0", InterfaceState::Absent, 0),
        eth("veth1", InterfaceState::Absent, 0),
        eth("eth5", InterfaceState::Absent, 0),
        eth("eth6", InterfaceState::Up, 0),
    ]);
    let current = state_of(vec![
        veth("veth0", "veth1", InterfaceState::Up),
        veth("veth1", "veth0", InterfaceState::Up),
        eth("eth5", InterfaceState::Up, 0),
    ]);
    let merged = MergedNetworkState::new(desired, current).unwrap();
    let conf = delete_ifaces(&merged.interfaces).unwrap();
    let ifaces = conf.ifaces.unwrap();
    let names: Vec<&str> = ifaces.iter().map(|c| c.name.as_str()).collect();
    assert_eq!(names, vec!["veth0", "eth5"]);
    assert!(ifaces.iter().all(|c| c.state == NpIfaceState::Absent));
}

#[test]
fn deleting_what_is_not_there_is_a_bug() {
    let desired = state_of(vec![eth("eth0", InterfaceState::Absent, 0)]);
    let merged = MergedNetworkState::new(desired, NetworkState::new()).unwrap();
    let e = delete_ifaces(&merged.interfaces).err().unwrap();
    assert_eq!(e.kind, ErrorKind::Bug);
}

#[test]
fn the_desired_running_hostname_is_found() {
    let mut desired = NetworkState::new();
    desired.hostname = Some(HostNameState { running: Some("h".to_string()), config: None });
    let merged = MergedNetworkState::new(desired, NetworkState::new()).unwrap();
    assert_eq!(desired_running_hostname(&merged).map(|s| s.as_str()), Some("h"));
    let mut desired = NetworkState::new();
    desired.hostname = Some(HostNameState { running: None, config: Some("c".to_string()) });
    let merged = MergedNetworkState::new(desired, NetworkState::new()).unwrap();
    assert!(desired_running_hostname(&merged).is_none());
}

#[test]
fn a_lease_becomes_an_address_with_a_lifetime() {
    let lease = NipartDhcpLease::V4(NipartDhcpLeaseV4 {
        iface: "eth0".to_string(),
        ip: "192.0.2.5".to_string(),
        prefix_length: 24,
        lease_time: 3600,
    });
    let conf = nispor_apply_dhcp_lease(lease);
    let ifaces = conf.ifaces.unwrap();
    assert_eq!(ifaces.len(), 1);
    assert_eq!(ifaces[0].name, "eth0");
    assert_eq!(ifaces[0].state, NpIfaceState::Up);
    assert!(ifaces[0].iface_type.is_none());
    let addrs = &ifaces[0].ipv4.as_ref().unwrap().addresses;
    assert_eq!(addrs.len(), 1);
    assert_eq!(addrs[0].address, "192.0.2.5");
    assert_eq!(addrs[0].prefix_len, 24);
    assert_eq!(addrs[0].valid_lft, "3600sec");
    assert_eq!(addrs[0].preferred_lft, "3600sec");
}

#[test]
fn a_failure_to_apply_is_a_plugin_failure() {
    let e = apply_failure("NisporBug", "it broke");
    assert_eq!(e.kind, ErrorKind::PluginFailure);
    assert_eq!(e.msg, "Unknown error from nipsor plugin: NisporBug, it broke");
}

fn request(uuid: u128, plugin: NipartPluginEvent) -> NipartEvent {
    NipartEvent {
        uuid,
        user: NipartUserEvent::Nil,
        plugin,
        src: NipartEventAddress::Commander,
        dst: NipartEventAddress::Group(NipartRole::QueryAndApply),
        timeout: 1000,
        postpone_millis: 0,
    }
}

#[test]
fn the_plugin_tells_what_an_event_asks_for() {
    let (uuid, r) = NipartPluginNispor::handle_event(request(5, NipartPluginEvent::QueryNetState(NipartQueryOption::running())));
    assert_eq!(uuid, 5);
    assert!(matches!(r, NisporRequest::Query));
    let (_, r) = NipartPluginNispor::handle_event(request(6, NipartPluginEvent::QueryRelatedNetState(Box::new(NetworkState::new()))));
    assert!(matches!(r, NisporRequest::Query));
    let merged = MergedNetworkState::new(state_of(vec![eth("eth0", InterfaceState::Up, 0)]), NetworkState::new()).unwrap();
    let (uuid, r) = NipartPluginNispor::handle_event(request(7, NipartPluginEvent::ApplyNetState(Box::new(merged), opt())));
    assert_eq!(uuid, 7);
    match r {
        NisporRequest::Apply(m, o) => {
            assert_eq!(m.interfaces.kernel_ifaces.len(), 1);
            assert_eq!(o, opt());
        }
        other => panic!("unexpected request {other:?}"),
    }
    let (_, r) = NipartPluginNispor::handle_event(request(8, NipartPluginEvent::Quit));
    assert!(matches!(r, NisporRequest::Nothing));
}

#[test]
fn the_reply_to_a_query_carries_the_state_and_the_priority() {
    let reply = NipartPluginNispor::query_reply(9, state_of(vec![eth("eth0", InterfaceState::Up, 0)]));
    assert_eq!(reply.uuid, 9);
    assert!(matches!(reply.user, NipartUserEvent::Nil));
    assert!(matches!(reply.dst, NipartEventAddress::Commander));
    assert_eq!(reply.src.to_text(), "nispor");
    assert_eq!(reply.timeout, 30000);
    match &reply.plugin {
        NipartPluginEvent::QueryNetStateReply(s, prio) => {
            assert_eq!(s.interfaces.ifaces.len(), 1);
            assert_eq!(*prio, 50);
            assert_eq!(*prio, STATE_PRIORITY);
        }
        other => panic!("unexpected reply {other:?}"),
    }
}

#[test]
fn the_reply_to_an_apply_reports_the_failure() {
    let ok = handle_apply(Ok(()), 3);
    assert_eq!(ok.uuid, 3);
    assert!(matches!(ok.user, NipartUserEvent::Nil));
    assert!(matches!(ok.plugin, NipartPluginEvent::ApplyNetStateReply));
    assert!(ok.plugin.is_reply());
    let failed = handle_apply(Err(NipartError::new(ErrorKind::PluginFailure, "x".to_string())), 4);
    assert_eq!(failed.uuid, 4);
    assert!(failed.is_err());
    assert!(failed.reports_failure());
    assert!(matches!(failed.plugin, NipartPluginEvent::Nil));
    assert_eq!(failed.src.to_text(), "nispor");
    assert!(matches!(failed.dst, NipartEventAddress::Commander));
}

#[test]
fn the_plugin_names_its_socket_and_roles() {
    let p = NipartPluginNispor::init("/run/nipart/nispor");
    assert_eq!(p.get_socket_path(), "/run/nipart/nispor");
    assert_eq!(p.roles(), vec![NipartRole::QueryAndApply]);
    assert_eq!(PLUGIN_NAME, "nispor");
    assert_eq!(NipartPluginNispor::PLUGIN_NAME, "nispor");
}
