use nipart::{
    Data, BaseInterface, DnsState, ErrorKind, EthernetInterface, HostNameState, Interface, InterfaceIpv4,
    InterfaceIpv6, InterfaceState, InterfaceType, Interfaces, MergedNetworkState, NetworkState,
    NipartDhcpConfig, OvnBridgeMapping, OvnConfiguration, OvsDbGlobalConfig, RouteEntry,
    RouteRuleEntry, UnknownInterface, VethConfig,
};

fn base(name: &str, iface_type: InterfaceType, state: InterfaceState) -> BaseInterface {
    BaseInterface {
        name: name.to_string(),
        iface_type,
        state,
        controller: None,
        mac_address: None,
        ipv4: None,
        ipv6: None,
        up_priority: 0,
    }
}

fn eth(name: &str, state: InterfaceState) -> Interface {
    Interface::Ethernet(EthernetInterface {
        base: base(name, InterfaceType::Ethernet, state),
        veth: None,
    })
}

fn eth_with_ip(name: &str, address: &str, dhcp: bool) -> Interface {
    let mut b = base(name, InterfaceType::Ethernet, InterfaceState::Up);
    b.ipv4 = Some(InterfaceIpv4 {
        enabled: true,
        dhcp: Some(dhcp),
        dhcp_client_id: None,
        addresses: Some(vec![(address.to_string(), 24)]),
    });
    Interface::Ethernet(EthernetInterface { base: b, veth: None })
}

fn state_of(ifaces: Vec<Interface>) -> NetworkState {
    let mut s = NetworkState::new();
    s.interfaces = Interfaces { ifaces };
    s
}

fn route(dest: &str, iface: &str) -> RouteEntry {
    RouteEntry {
        destination: dest.to_string(),
        next_hop_iface: iface.to_string(),
        next_hop_addr: "10.0.0.254".to_string(),
        metric: 100,
    }
}

fn rule(from: &str, iif: &str) -> RouteRuleEntry {
    RouteRuleEntry {
        ip_from: from.to_string(),
        ip_to: String::new(),
        iif: iif.to_string(),
        route_table: 100,
    }
}

fn ids(pairs: &[(&str, Option<&str>)]) -> Vec<(String, Option<String>)> {
    pairs.iter().map(|(k, v)| (k.to_string(), v.map(|v| v.to_string()))).collect()
}

#[test]
fn the_empty_state_states_nothing() {
    let s = NetworkState::new();
    assert!(s.description.is_empty());
    assert!(s.hostname.is_none());
    assert!(s.interfaces.ifaces.is_empty());
    assert!(s.routes.is_none());
    assert!(s.rules.is_none());
    assert!(s.dns.is_none());
    assert!(s.ovsdb.is_none());
    assert!(s.ovn.is_none());
}

#[test]
fn merge_states_of_nothing_is_the_empty_state() {
    let s = NetworkState::merge_states(Vec::new());
    assert!(s.interfaces.ifaces.is_empty());
    assert!(s.hostname.is_none());
    assert!(s.dns.is_none());
}

#[test]
fn later_states_stand_against_earlier_ones() {
    let mut first = NetworkState::new();
    first.hostname = Some(HostNameState { running: Some("a".to_string()), config: None });
    first.dns = Some(DnsState { servers: vec!["192.0.2.1".to_string()], searches: vec![] });
    first.ovsdb = Some(OvsDbGlobalConfig {
        external_ids: Some(ids(&[("k", Some("v1"))])),
        other_config: None,
    });
    first.ovn = OvnConfiguration {
        bridge_mappings: Some(vec![OvnBridgeMapping {
            localnet: "net1".to_string(),
            bridge: Some("br1".to_string()),
        }]),
    };
    let mut second = NetworkState::new();
    second.hostname = Some(HostNameState { running: None, config: Some("b".to_string()) });
    second.dns = Some(DnsState { servers: vec!["192.0.2.2".to_string()], searches: vec![] });
    second.ovsdb = Some(OvsDbGlobalConfig {
        external_ids: Some(ids(&[("k", Some("v2"))])),
        other_config: None,
    });

    let merged = NetworkState::merge_states(vec![first, second]);
    let hostname = merged.hostname.unwrap();
    assert_eq!(hostname.running.as_deref(), Some("a"));
    assert_eq!(hostname.config.as_deref(), Some("b"));
    assert_eq!(merged.dns.unwrap().servers, vec!["192.0.2.2".to_string()]);
    assert_eq!(merged.ovsdb.unwrap().external_ids.unwrap(), ids(&[("k", Some("v2"))]));
    // The second state states no OVN configuration: that of the first stays.
    assert_eq!(merged.ovn.bridge_mappings.unwrap()[0].localnet, "net1");
}

#[test]
fn update_state_merges_interfaces_by_name() {
    let mut mine = state_of(vec![eth_with_ip("eth0", "10.0.0.1", false), eth("eth1", InterfaceState::Up)]);
    let other = state_of(vec![eth("eth1", InterfaceState::Down), eth("eth2", InterfaceState::Up)]);
    mine.update_state(&other);
    let names: Vec<&str> = mine.interfaces.ifaces.iter().map(|i| i.name()).collect();
    assert_eq!(names, vec!["eth0", "eth1", "eth2"]);
    assert_eq!(mine.interfaces.ifaces[1].base_iface().state, InterfaceState::Down);
    // What the other state does not state stays.
    assert!(mine.interfaces.ifaces[0].base_iface().ipv4.is_some());
}

#[test]
fn update_state_leaves_routes_and_rules_alone() {
    let mut mine = NetworkState::new();
    mine.routes = Some(vec![route("198.51.100.0/24", "eth0")]);
    let mut other = NetworkState::new();
    other.routes = Some(vec![route("203.0.113.0/24", "eth1")]);
    other.rules = Some(vec![rule("192.0.2.0/24", "eth0")]);
    mine.update_state(&other);
    let routes = mine.routes.unwrap();
    assert_eq!(routes.len(), 1);
    assert_eq!(routes[0].destination, "198.51.100.0/24");
    assert!(mine.rules.is_none());

    let mut bare = NetworkState::new();
    let mut stating = NetworkState::new();
    stating.routes = Some(Vec::new());
    bare.update_state(&stating);
    assert!(bare.routes.is_none());
    let merged = NetworkState::merge_states(vec![stating, other]);
    assert!(merged.routes.is_none());
    assert!(merged.rules.is_none());
}

#[test]
fn applying_a_difference_lets_new_routes_and_rules_join() {
    let mut mine = NetworkState::new();
    mine.routes = Some(vec![route("198.51.100.0/24", "eth0")]);
    mine.description = "mine".to_string();
    let mut diff = NetworkState::new();
    diff.routes = Some(vec![route("198.51.100.0/24", "eth0"), route("203.0.113.0/24", "eth1")]);
    diff.rules = Some(vec![rule("192.0.2.0/24", "eth0")]);
    diff.dns = Some(DnsState { servers: vec!["192.0.2.2".to_string()], searches: vec![] });
    diff.interfaces = Interfaces { ifaces: vec![eth("eth1", InterfaceState::Up)] };
    mine.apply_diff(&diff);
    let routes = mine.routes.unwrap();
    assert_eq!(routes.len(), 2);
    assert_eq!(routes[0].destination, "198.51.100.0/24");
    assert_eq!(routes[1].destination, "203.0.113.0/24");
    assert_eq!(mine.rules.unwrap().len(), 1);
    assert_eq!(mine.dns.unwrap().servers, vec!["192.0.2.2".to_string()]);
    assert_eq!(mine.interfaces.ifaces.len(), 1);
    assert_eq!(mine.description, "mine");
}

#[test]
fn update_state_keeps_the_description() {
    let mut mine = NetworkState::new();
    mine.description = "mine".to_string();
    let mut other = NetworkState::new();
    other.description = "other".to_string();
    mine.update_state(&other);
    assert_eq!(mine.description, "mine");
}

#[test]
fn gen_diff_holds_only_what_changed() {
    let mut running = state_of(vec![eth_with_ip("eth0", "10.0.0.1", false), eth("eth1", InterfaceState::Up)]);
    running.hostname = Some(HostNameState { running: Some("host".to_string()), config: None });
    running.dns = Some(DnsState { servers: vec!["192.0.2.2".to_string()], searches: vec![] });
    running.routes = Some(vec![route("198.51.100.0/24", "eth0"), route("203.0.113.0/24", "eth1")]);
    running.description = "now".to_string();
    let mut committed = state_of(vec![eth_with_ip("eth0", "10.0.0.9", false), eth("eth1", InterfaceState::Up)]);
    committed.hostname = Some(HostNameState { running: Some("host".to_string()), config: None });
    committed.dns = Some(DnsState { servers: vec!["192.0.2.1".to_string()], searches: vec![] });
    committed.routes = Some(vec![route("198.51.100.0/24", "eth0")]);
    committed.description = "then".to_string();

    let diff = running.gen_diff(&committed).unwrap();
    assert_eq!(diff.interfaces.ifaces.len(), 1);
    assert_eq!(diff.interfaces.ifaces[0].name(), "eth0");
    assert!(diff.hostname.is_none());
    assert_eq!(diff.dns.unwrap().servers, vec!["192.0.2.2".to_string()]);
    let routes = diff.routes.unwrap();
    assert_eq!(routes.len(), 1);
    assert_eq!(routes[0].destination, "203.0.113.0/24");
    assert!(diff.rules.is_none());
    assert_eq!(diff.description, "now");
    assert!(diff.ovsdb.is_none());
    assert!(diff.ovn.is_none());
}

#[test]
fn gen_diff_of_a_state_with_itself_is_empty() {
    let mut s = state_of(vec![eth_with_ip("eth0", "10.0.0.1", false), eth("eth1", InterfaceState::Absent)]);
    s.description = "same".to_string();
    s.hostname = Some(HostNameState { running: Some("host".to_string()), config: None });
    s.dns = Some(DnsState { servers: vec!["192.0.2.2".to_string()], searches: vec![] });
    s.routes = Some(vec![route("198.51.100.0/24", "eth0")]);
    s.rules = Some(vec![rule("192.0.2.0/24", "eth0")]);
    s.ovsdb = Some(OvsDbGlobalConfig { external_ids: Some(ids(&[("k", Some("v")), ("gone", None)])), other_config: None });
    s.ovn = OvnConfiguration {
        bridge_mappings: Some(vec![OvnBridgeMapping { localnet: "n".to_string(), bridge: Some("br".to_string()) }]),
    };
    let diff = s.gen_diff(&s).unwrap();
    assert_eq!(diff, NetworkState::new());
    assert!(diff.routes.is_none());
    assert!(diff.rules.is_none());

    let mut empty_lists = NetworkState::new();
    empty_lists.routes = Some(Vec::new());
    empty_lists.rules = Some(Vec::new());
    assert_eq!(empty_lists.gen_diff(&NetworkState::new()).unwrap(), NetworkState::new());
}

#[test]
fn gen_diff_holds_no_routes_where_none_is_missing() {
    let mut desired = NetworkState::new();
    desired.routes = Some(vec![route("198.51.100.0/24", "eth0")]);
    desired.rules = Some(vec![rule("192.0.2.0/24", "eth0")]);
    let mut current = NetworkState::new();
    current.routes = Some(vec![route("203.0.113.0/24", "eth1"), route("198.51.100.0/24", "eth0")]);
    current.rules = Some(vec![rule("192.0.2.0/24", "eth0")]);
    let diff = desired.gen_diff(&current).unwrap();
    assert!(diff.routes.is_none());
    assert!(diff.rules.is_none());
}

#[test]
fn a_state_that_is_not_valid_is_rejected() {
    let twice = NetworkState {
        ovsdb: Some(OvsDbGlobalConfig {
            external_ids: Some(ids(&[("a", Some("1"))])),
            other_config: Some(ids(&[("k", None), ("b", Some("2")), ("k", Some("v"))])),
        }),
        ..NetworkState::new()
    };
    assert!(!twice.is_wf());
    let e = twice.gen_diff(&NetworkState::new()).err().unwrap();
    assert_eq!(e.kind, ErrorKind::InvalidArgument);
    assert_eq!(e.msg, "Setting 'ovsdb.other_config.k' is given more than once");
    assert_eq!(twice.validate().err().unwrap().msg, e.msg);
    // What is found need not be valid to be compared with.
    assert!(MergedNetworkState::new(NetworkState::new(), twice).is_ok());

    let mut mistyped = base("br0", InterfaceType::Ethernet, InterfaceState::Up);
    mistyped.mac_address = None;
    let odd = state_of(vec![
        eth("eth0", InterfaceState::Up),
        Interface::OvsBridge(nipart::OvsBridgeInterface { base: mistyped, bridge: None }),
    ]);
    assert!(!odd.is_wf());
    assert!(!odd.interfaces.is_wf());
    let e = MergedNetworkState::new(odd, NetworkState::new()).err().unwrap();
    assert_eq!(e.kind, ErrorKind::InvalidArgument);
    assert_eq!(e.msg, "Interface 'br0' is an Open vSwitch bridge but has another type");

    assert!(NetworkState::new().is_wf());
    assert!(state_of(vec![eth("eth0", InterfaceState::Up), eth("eth1", InterfaceState::Up)]).is_wf());
    assert!(!state_of(vec![eth("eth0", InterfaceState::Up), eth("eth0", InterfaceState::Up)]).is_wf());
}

#[test]
fn merging_keeps_states_valid() {
    let mut mine = state_of(vec![eth("eth0", InterfaceState::Up), eth("eth1", InterfaceState::Up)]);
    let other = state_of(vec![eth("eth1", InterfaceState::Down), eth("eth2", InterfaceState::Up)]);
    mine.update_state(&other);
    assert!(mine.is_wf());
    let mut s = NetworkState::new();
    s.ovsdb = Some(OvsDbGlobalConfig {
        external_ids: Some(ids(&[("a", Some("1")), ("ovn-bridge-mappings", Some("n:br")), ("b", None)])),
        other_config: None,
    });
    assert!(s.is_wf());
    s.isolate_ovn().unwrap();
    assert!(s.is_wf());
}

#[test]
fn gen_diff_against_the_empty_state_is_the_whole_state() {
    let s = state_of(vec![eth_with_ip("eth0", "10.0.0.1", false), eth("eth1", InterfaceState::Up)]);
    let diff = s.gen_diff(&NetworkState::new()).unwrap();
    assert_eq!(diff.interfaces.ifaces.len(), 2);
}

#[test]
fn gen_diff_rejects_an_interface_named_twice() {
    let s = state_of(vec![eth("eth0", InterfaceState::Up), eth("eth1", InterfaceState::Up), eth("eth0", InterfaceState::Down)]);
    let e = s.gen_diff(&NetworkState::new()).err().unwrap();
    assert_eq!(e.kind, ErrorKind::InvalidArgument);
    assert_eq!(e.msg, "Interface 'eth0' is desired more than once");
}

#[test]
fn applying_a_diff_gives_a_state_that_verifies() {
    let mut a = state_of(vec![eth_with_ip("eth0", "10.0.0.9", true), eth("eth1", InterfaceState::Up)]);
    a.hostname = Some(HostNameState { running: Some("old".to_string()), config: None });
    a.routes = Some(vec![route("198.51.100.0/24", "eth0")]);
    let mut b = state_of(vec![eth_with_ip("eth0", "10.0.0.1", false), eth("eth2", InterfaceState::Up), eth("eth1", InterfaceState::Absent)]);
    b.hostname = Some(HostNameState { running: Some("new".to_string()), config: Some("new".to_string()) });
    b.dns = Some(DnsState { servers: vec!["192.0.2.2".to_string()], searches: vec!["example.org".to_string()] });
    b.routes = Some(vec![route("198.51.100.0/24", "eth0"), route("203.0.113.0/24", "eth2")]);
    b.rules = Some(vec![rule("192.0.2.0/24", "eth0")]);
    b.ovsdb = Some(OvsDbGlobalConfig { external_ids: Some(ids(&[("k", Some("v")), ("gone", None)])), other_config: None });
    b.ovn = OvnConfiguration {
        bridge_mappings: Some(vec![OvnBridgeMapping { localnet: "n".to_string(), bridge: Some("br".to_string()) }]),
    };

    let diff = b.gen_diff(&a).unwrap();
    let mut c = a.dup();
    c.apply_diff(&diff);
    let merged = MergedNetworkState::new(b, a).unwrap();
    assert!(merged.verify(&c).is_ok());
}

#[test]
fn verify_reports_the_host_name_first() {
    let mut desired = state_of(vec![eth("eth0", InterfaceState::Up)]);
    desired.hostname = Some(HostNameState { running: Some("want".to_string()), config: None });
    let merged = MergedNetworkState::new(desired, NetworkState::new()).unwrap();
    let e = merged.verify(&NetworkState::new()).err().unwrap();
    assert_eq!(e.kind, ErrorKind::VerificationError);
    assert_eq!(e.msg, "Verification failure: hostname.running desire 'want', current 'null'");

    let mut found = NetworkState::new();
    found.hostname = Some(HostNameState { running: Some("have".to_string()), config: None });
    let e = merged.verify(&found).err().unwrap();
    assert_eq!(e.msg, "Verification failure: hostname.running desire 'want', current 'have'");
}

#[test]
fn verify_reports_a_missing_interface() {
    let desired = state_of(vec![eth("eth0", InterfaceState::Up)]);
    let merged = MergedNetworkState::new(desired, NetworkState::new()).unwrap();
    let e = merged.verify(&NetworkState::new()).err().unwrap();
    assert_eq!(e.kind, ErrorKind::VerificationError);
    assert_eq!(e.msg, "Verification failure: interface.eth0 desire 'up', current 'null'");
    let e = merged.verify(&state_of(vec![eth("eth0", InterfaceState::Down)])).err().unwrap();
    assert_eq!(e.msg, "Verification failure: interface.eth0 desire 'up', current 'down'");
    assert!(merged.verify(&state_of(vec![eth("eth0", InterfaceState::Up)])).is_ok());
}

#[test]
fn verify_takes_a_removed_interface_for_met() {
    let desired = state_of(vec![eth("eth0", InterfaceState::Absent)]);
    let current = state_of(vec![eth("eth0", InterfaceState::Up)]);
    let merged = MergedNetworkState::new(desired, current).unwrap();
    assert!(merged.verify(&NetworkState::new()).is_ok());
    let e = merged.verify(&state_of(vec![eth("eth0", InterfaceState::Up)])).err().unwrap();
    assert_eq!(e.msg, "Verification failure: interface.eth0 desire 'absent', current 'up'");
}

#[test]
fn verify_passes_over_ignored_interfaces() {
    let mut desired = state_of(vec![eth("eth0", InterfaceState::Ignore)]);
    desired.routes = Some(vec![route("198.51.100.0/24", "eth0"), route("203.0.113.0/24", "eth1")]);
    let merged = MergedNetworkState::new(desired, NetworkState::new()).unwrap();
    assert_eq!(merged.interfaces.ignored_ifaces.len(), 1);
    assert_eq!(merged.ignored_kernel_ifaces(), vec!["eth0".to_string()]);
    // The route through the ignored interface is not looked at, the other is.
    let e = merged.verify(&NetworkState::new()).err().unwrap();
    assert_eq!(e.msg, "Verification failure: routes desire '203.0.113.0/24', current 'null'");
    let mut found = NetworkState::new();
    found.routes = Some(vec![route("203.0.113.0/24", "eth1")]);
    assert!(merged.verify(&found).is_ok());
}

#[test]
fn verify_reports_rules_dns_and_ovn() {
    let mut desired = NetworkState::new();
    desired.rules = Some(vec![rule("192.0.2.0/24", "eth0")]);
    desired.dns = Some(DnsState { servers: vec!["192.0.2.1".to_string(), "192.0.2.2".to_string()], searches: vec!["a.example".to_string()] });
    desired.ovn = OvnConfiguration {
        bridge_mappings: Some(vec![OvnBridgeMapping { localnet: "n".to_string(), bridge: Some("br".to_string()) }]),
    };
    let merged = MergedNetworkState::new(desired, NetworkState::new()).unwrap();

    let mut found = NetworkState::new();
    let e = merged.verify(&found).err().unwrap();
    assert_eq!(e.msg, "Verification failure: route-rules desire '192.0.2.0/24', current 'null'");

    found.rules = Some(vec![rule("192.0.2.0/24", "eth0")]);
    let e = merged.verify(&found).err().unwrap();
    assert_eq!(e.msg, "Verification failure: dns.servers desire '192.0.2.1,192.0.2.2', current ''");

    found.dns = Some(DnsState { servers: vec!["192.0.2.1".to_string(), "192.0.2.2".to_string()], searches: vec![] });
    let e = merged.verify(&found).err().unwrap();
    assert_eq!(e.msg, "Verification failure: dns.searches desire 'a.example', current ''");

    found.dns = Some(DnsState { servers: vec!["192.0.2.1".to_string(), "192.0.2.2".to_string()], searches: vec!["a.example".to_string()] });
    let e = merged.verify(&found).err().unwrap();
    assert_eq!(e.kind, ErrorKind::VerificationError);
    assert_eq!(e.msg, "Verification failure: ovn.bridge-mappings desire 'n:br', current 'null'");
    found.ovn = OvnConfiguration {
        bridge_mappings: Some(vec![
            OvnBridgeMapping { localnet: "n".to_string(), bridge: None },
            OvnBridgeMapping { localnet: "m".to_string(), bridge: Some("br2".to_string()) },
        ]),
    };
    let e = merged.verify(&found).err().unwrap();
    assert_eq!(e.msg, "Verification failure: ovn.bridge-mappings desire 'n:br', current 'n:,m:br2'");

    found.ovn = OvnConfiguration {
        bridge_mappings: Some(vec![OvnBridgeMapping { localnet: "n".to_string(), bridge: Some("br".to_string()) }]),
    };
    assert!(merged.verify(&found).is_ok());
}

#[test]
fn dhcp_changes_follow_the_interfaces_to_apply() {
    let mut with_both = base("eth0", InterfaceType::Ethernet, InterfaceState::Up);
    with_both.ipv4 = Some(InterfaceIpv4 { enabled: true, dhcp: Some(true), dhcp_client_id: None, addresses: None });
    with_both.ipv6 = Some(InterfaceIpv6 { enabled: false, dhcp: Some(true), dhcp_duid: None, addresses: None });
    let mut port = base("eth1", InterfaceType::Ethernet, InterfaceState::Up);
    port.controller = Some("br0".to_string());
    let mut v4_only = base("eth2", InterfaceType::Ethernet, InterfaceState::Up);
    v4_only.ipv4 = Some(InterfaceIpv4 { enabled: true, dhcp: None, dhcp_client_id: None, addresses: None });
    let desired = state_of(vec![
        Interface::Ethernet(EthernetInterface { base: with_both, veth: None }),
        Interface::Ethernet(EthernetInterface { base: port, veth: None }),
        Interface::Ethernet(EthernetInterface { base: v4_only, veth: None }),
    ]);
    let merged = MergedNetworkState::new(desired, NetworkState::new()).unwrap();
    assert!(merged.dhcp_is_plain());
    let changes = merged.get_dhcp_changes();
    let texts: Vec<String> = changes.iter().map(|c| c.to_text()).collect();
    assert_eq!(
        texts,
        vec![
            "eth0:dhcpv4:on",
            "eth0:dhcpv6:off",
            "eth1:dhcpv4:off",
            "eth1:dhcpv6:off",
            "eth2:dhcpv4:off",
        ]
    );
    assert!(matches!(changes[0], NipartDhcpConfig::V4(_)));
    assert!(matches!(changes[1], NipartDhcpConfig::V6(_)));
}

#[test]
fn dhcp_changes_pass_over_interfaces_that_do_not_change() {
    let desired = state_of(vec![eth_with_ip("eth0", "10.0.0.1", true)]);
    let current = state_of(vec![eth_with_ip("eth0", "10.0.0.1", true)]);
    let merged = MergedNetworkState::new(desired, current).unwrap();
    assert!(merged.get_dhcp_changes().is_empty());
}

#[test]
fn a_client_identifier_is_not_plain() {
    let mut b = base("eth0", InterfaceType::Ethernet, InterfaceState::Up);
    b.ipv4 = Some(InterfaceIpv4 { enabled: true, dhcp: Some(true), dhcp_client_id: Some("id".to_string()), addresses: None });
    let desired = state_of(vec![Interface::Ethernet(EthernetInterface { base: b, veth: None })]);
    let merged = MergedNetworkState::new(desired, NetworkState::new()).unwrap();
    assert!(!merged.dhcp_is_plain());
}

#[test]
fn desired_hostname_is_handed_out() {
    let mut desired = NetworkState::new();
    desired.hostname = Some(HostNameState { running: Some("h".to_string()), config: None });
    let merged = MergedNetworkState::new(desired, NetworkState::new()).unwrap();
    assert_eq!(merged.get_desired_hostname().unwrap().running.as_deref(), Some("h"));
    let merged = MergedNetworkState::new(NetworkState::new(), NetworkState::new()).unwrap();
    assert!(merged.get_desired_hostname().is_none());
}

#[test]
fn merged_interfaces_are_laid_out_by_space() {
    let bridge = Interface::Unknown(UnknownInterface { base: base("br0", InterfaceType::OvsBridge, InterfaceState::Up) });
    let desired = state_of(vec![eth("eth0", InterfaceState::Up), bridge]);
    let current = state_of(vec![eth("eth0", InterfaceState::Up), eth("eth9", InterfaceState::Up)]);
    let merged = MergedNetworkState::new(desired, current).unwrap();
    let kernel: Vec<&str> = merged.interfaces.kernel_ifaces.iter().map(|m| m.merged.name()).collect();
    let user: Vec<&str> = merged.interfaces.user_ifaces.iter().map(|m| m.merged.name()).collect();
    assert_eq!(kernel, vec!["eth0", "eth9"]);
    assert_eq!(user, vec!["br0"]);
    assert!(!merged.interfaces.kernel_ifaces[0].is_changed());
    assert!(merged.interfaces.kernel_ifaces[1].desired.is_none());
    assert!(merged.interfaces.user_ifaces[0].is_changed());
}

#[test]
fn isolate_ovn_moves_the_mappings() {
    let mut s = NetworkState::new();
    s.ovsdb = Some(OvsDbGlobalConfig {
        external_ids: Some(ids(&[
            ("a", Some("1")),
            ("ovn-bridge-mappings", Some("physnet1:br1,physnet2:br2")),
            ("b", None),
        ])),
        other_config: Some(ids(&[("c", Some("3"))])),
    });
    s.isolate_ovn().unwrap();
    let ovsdb = s.ovsdb.unwrap();
    assert_eq!(ovsdb.external_ids.unwrap(), ids(&[("a", Some("1")), ("b", None)]));
    assert_eq!(ovsdb.other_config.unwrap(), ids(&[("c", Some("3"))]));
    let maps = s.ovn.bridge_mappings.unwrap();
    assert_eq!(maps.len(), 2);
    assert_eq!(maps[0].localnet, "physnet1");
    assert_eq!(maps[0].bridge.as_deref(), Some("br1"));
    assert_eq!(maps[1].localnet, "physnet2");
    assert_eq!(maps[1].bridge.as_deref(), Some("br2"));
}

#[test]
fn isolate_ovn_without_the_key_changes_nothing() {
    let mut s = NetworkState::new();
    s.isolate_ovn().unwrap();
    assert!(s.ovsdb.is_none());
    assert!(s.ovn.is_none());
    s.ovsdb = Some(OvsDbGlobalConfig { external_ids: Some(ids(&[("a", Some("1"))])), other_config: None });
    s.isolate_ovn().unwrap();
    assert_eq!(s.ovsdb.unwrap().external_ids.unwrap(), ids(&[("a", Some("1"))]));
    assert!(s.ovn.is_none());
}

#[test]
fn isolate_ovn_takes_a_key_without_value_out() {
    let mut s = NetworkState::new();
    s.ovsdb = Some(OvsDbGlobalConfig {
        external_ids: Some(ids(&[("ovn-bridge-mappings", None)])),
        other_config: None,
    });
    s.isolate_ovn().unwrap();
    assert!(s.ovsdb.unwrap().external_ids.unwrap().is_empty());
    assert!(s.ovn.is_none());
}

#[test]
fn isolate_ovn_rejects_what_it_cannot_read() {
    let mut s = NetworkState::new();
    s.ovsdb = Some(OvsDbGlobalConfig {
        external_ids: Some(ids(&[("ovn-bridge-mappings", Some("physnet1:br1,oops"))])),
        other_config: None,
    });
    let e = s.isolate_ovn().err().unwrap();
    assert_eq!(e.kind, ErrorKind::InvalidArgument);
    assert_eq!(e.msg, "Expecting an OVN bridge mapping as 'localnet:bridge', but got 'oops'");
    // The key has left the settings all the same.
    assert!(s.ovsdb.unwrap().external_ids.unwrap().is_empty());
    assert!(s.ovn.is_none());
}

#[test]
fn ovn_mappings_are_read_segment_by_segment() {
    assert!(OvnConfiguration::parse("").unwrap().bridge_mappings.unwrap().is_empty());
    assert!(OvnConfiguration::parse(",,").unwrap().bridge_mappings.unwrap().is_empty());
    let one = OvnConfiguration::parse("a:b").unwrap().bridge_mappings.unwrap();
    assert_eq!(one.len(), 1);
    assert_eq!(one[0].localnet, "a");
    assert_eq!(one[0].bridge.as_deref(), Some("b"));
    let two = OvnConfiguration::parse(",a:b,,c:d,").unwrap().bridge_mappings.unwrap();
    assert_eq!(two.len(), 2);
    assert_eq!(two[1].localnet, "c");
    let odd = OvnConfiguration::parse(":").unwrap().bridge_mappings.unwrap();
    assert_eq!(odd[0].localnet, "");
    assert_eq!(odd[0].bridge.as_deref(), Some(""));
    assert_eq!(OvnConfiguration::parse("a").err().unwrap().kind, ErrorKind::InvalidArgument);
    assert_eq!(
        OvnConfiguration::parse("a:b:c").err().unwrap().msg,
        "Expecting an OVN bridge mapping as 'localnet:bridge', but got 'a:b:c'"
    );
    assert!(OvnBridgeMapping::parse("x:y").is_some());
    assert!(OvnBridgeMapping::parse("xy").is_none());
}

#[test]
fn a_veth_interface_merges_like_any_other() {
    let mut mine = Interface::Ethernet(EthernetInterface {
        base: base("veth0", InterfaceType::Veth, InterfaceState::Up),
        veth: Some(VethConfig { peer: "veth1".to_string() }),
    });
    let other = eth("veth0", InterfaceState::Down);
    mine.update(&other);
    assert_eq!(mine.base_iface().state, InterfaceState::Down);
    assert_eq!(mine.iface_type(), InterfaceType::Ethernet);
    match &mine {
        Interface::Ethernet(e) => assert_eq!(e.veth.as_ref().unwrap().peer, "veth1"),
        other => panic!("unexpected interface {other:?}"),
    }
}
