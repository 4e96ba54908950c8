use nipart::{
    BaseInterface, ErrorKind, Interface, InterfaceState, InterfaceType, Interfaces,
    MergedInterface, MergedInterfaces, MergedOvsDbGlobalConfig, OvsBridgeBondConfig,
    OvsBridgeConfig, OvsBridgeInterface, OvsBridgePortConfig, OvsDbGlobalConfig, OvsDbIfaceConfig,
    OvsDpdkConfig, OvsInterface, OvsPatchConfig,
};

fn ids(pairs: &[(&str, Option<&str>)]) -> Vec<(String, Option<String>)> {
    pairs.iter().map(|(k, v)| (k.to_string(), v.map(|v| v.to_string()))).collect()
}

fn base(name: &str, iface_type: InterfaceType, state: InterfaceState) -> BaseInterface {
    BaseInterface {
        name: name.to_string(),
        iface_type,
        state,
        controller: None,
        mac_address: None,
        ipv4: None,
        ipv6: None,
        up_priority: 0,
    }
}

fn port(name: &str) -> OvsBridgePortConfig {
    OvsBridgePortConfig { name: name.to_string(), bond: None }
}

fn bridge(name: &str, ports: Option<Vec<OvsBridgePortConfig>>, allow: Option<bool>) -> OvsBridgeInterface {
    OvsBridgeInterface {
        base: base(name, InterfaceType::OvsBridge, InterfaceState::Up),
        bridge: Some(OvsBridgeConfig { ports, allow_extra_patch_ports: allow }),
    }
}

fn ovs_iface(name: &str, patch: bool) -> Interface {
    Interface::OvsInterface(OvsInterface {
        base: base(name, InterfaceType::OvsInterface, InterfaceState::Up),
        patch: if patch { Some(OvsPatchConfig { peer: "peer".to_string() }) } else { None },
        dpdk: None,
    })
}

fn merged(desired: Option<OvsDbGlobalConfig>) -> MergedOvsDbGlobalConfig {
    MergedOvsDbGlobalConfig::new(desired, OvsDbGlobalConfig::new())
}

fn port_names(b: &OvsBridgeInterface) -> Vec<String> {
    b.bridge.as_ref().unwrap().ports.as_ref().unwrap().iter().map(|p| p.name.clone()).collect()
}

#[test]
fn ovsdb_verify_without_desire_succeeds() {
    let current = OvsDbGlobalConfig { external_ids: Some(ids(&[("k", Some("v"))])), other_config: None };
    assert!(merged(None).verify(current).is_ok());
}

#[test]
fn ovsdb_verify_finds_wanted_settings() {
    let desired = OvsDbGlobalConfig {
        external_ids: Some(ids(&[("a", Some("1")), ("gone", None)])),
        other_config: Some(ids(&[("b", Some("2"))])),
    };
    let current = OvsDbGlobalConfig {
        external_ids: Some(ids(&[("x", Some("9")), ("a", Some("1"))])),
        other_config: Some(ids(&[("b", Some("2")), ("c", Some("3"))])),
    };
    assert!(merged(Some(desired)).verify(current).is_ok());
}

#[test]
fn ovsdb_verify_reports_a_differing_value_as_json() {
    let desired = OvsDbGlobalConfig { external_ids: Some(ids(&[("k", Some("v1"))])), other_config: None };
    let current = OvsDbGlobalConfig { external_ids: Some(ids(&[("k", Some("v2"))])), other_config: None };
    let e = merged(Some(desired)).verify(current).err().unwrap();
    assert_eq!(e.kind, ErrorKind::VerificationError);
    assert_eq!(
        e.msg,
        "Verification failure: ovsdb.external_ids.k desire '\"v1\"', current '\"v2\"'"
    );
}

#[test]
fn ovsdb_verify_escapes_values_as_json_does() {
    let desired = OvsDbGlobalConfig {
        external_ids: None,
        other_config: Some(ids(&[("k", Some("a\"b\\c\nd"))])),
    };
    let current = OvsDbGlobalConfig { external_ids: None, other_config: Some(ids(&[("k", Some("é"))])) };
    let e = merged(Some(desired)).verify(current).err().unwrap();
    assert_eq!(
        e.msg,
        "Verification failure: ovsdb.other_config.k desire '\"a\\\"b\\\\c\\nd\"', current '\"é\"'"
    );
}

#[test]
fn ovsdb_verify_reports_a_missing_setting_as_null() {
    let desired = OvsDbGlobalConfig {
        external_ids: Some(ids(&[("a", Some("1"))])),
        other_config: Some(ids(&[("b", Some("2"))])),
    };
    let current = OvsDbGlobalConfig { external_ids: Some(ids(&[("a", Some("1"))])), other_config: None };
    let e = merged(Some(desired)).verify(current).err().unwrap();
    assert_eq!(e.msg, "Verification failure: ovsdb.other_config.b desire '\"2\"', current 'null'");

    let desired = OvsDbGlobalConfig { external_ids: Some(ids(&[("a", Some("1"))])), other_config: None };
    let current = OvsDbGlobalConfig { external_ids: Some(ids(&[("a", None)])), other_config: None };
    let e = merged(Some(desired)).verify(current).err().unwrap();
    assert_eq!(e.msg, "Verification failure: ovsdb.external_ids.a desire '\"1\"', current 'null'");
}

#[test]
fn ovsdb_verify_looks_at_external_ids_first() {
    let desired = OvsDbGlobalConfig {
        external_ids: Some(ids(&[("a", Some("1")), ("b", Some("2"))])),
        other_config: Some(ids(&[("c", Some("3"))])),
    };
    let e = merged(Some(desired)).verify(OvsDbGlobalConfig::new()).err().unwrap();
    assert_eq!(e.msg, "Verification failure: ovsdb.external_ids.a desire '\"1\"', current 'null'");
}

#[test]
fn ovsdb_is_changed_when_a_wanted_setting_is_not_held() {
    let desired = OvsDbGlobalConfig { external_ids: Some(ids(&[("k", Some("v"))])), other_config: None };
    let same = OvsDbGlobalConfig { external_ids: Some(ids(&[("k", Some("v"))])), other_config: None };
    assert!(MergedOvsDbGlobalConfig::new(Some(desired), OvsDbGlobalConfig::new()).is_changed());
    let desired = OvsDbGlobalConfig { external_ids: Some(ids(&[("k", Some("v"))])), other_config: None };
    assert!(!MergedOvsDbGlobalConfig::new(Some(desired), same).is_changed());
    assert!(!MergedOvsDbGlobalConfig::new(None, OvsDbGlobalConfig::new()).is_changed());
    assert!(OvsDbGlobalConfig::new().is_none());
}

#[test]
fn new_empty_has_both_sections_empty() {
    let c = OvsDbIfaceConfig::new_empty();
    assert_eq!(c.external_ids, Some(Vec::new()));
    assert_eq!(c.other_config, Some(Vec::new()));
}

#[test]
fn a_bond_without_database_settings_gets_empty_ones() {
    let mut bond = OvsBridgeBondConfig { ports: Some(vec!["eth1".to_string()]), ovsdb: None };
    bond.sanitize_current_for_verify();
    let ovsdb = bond.ovsdb.as_ref().unwrap();
    assert_eq!(ovsdb.external_ids, Some(Vec::new()));
    assert_eq!(ovsdb.other_config, Some(Vec::new()));
    assert_eq!(bond.ports, Some(vec!["eth1".to_string()]));

    let mut kept = OvsBridgeBondConfig {
        ports: None,
        ovsdb: Some(OvsDbIfaceConfig { external_ids: Some(ids(&[("k", Some("v"))])), other_config: None }),
    };
    kept.sanitize_current_for_verify();
    assert_eq!(kept.ovsdb.unwrap().external_ids, Some(ids(&[("k", Some("v"))])));
}

#[test]
fn a_bridge_sanitizes_the_bonds_of_its_ports() {
    let mut b = bridge(
        "br0",
        Some(vec![
            port("eth1"),
            OvsBridgePortConfig {
                name: "bond1".to_string(),
                bond: Some(OvsBridgeBondConfig { ports: Some(vec!["eth2".to_string(), "eth3".to_string()]), ovsdb: None }),
            },
        ]),
        Some(true),
    );
    b.sanitize_current_for_verify();
    let conf = b.bridge.as_ref().unwrap();
    assert_eq!(conf.allow_extra_patch_ports, Some(true));
    let ports = conf.ports.as_ref().unwrap();
    assert_eq!(ports.len(), 2);
    assert!(ports[0].bond.is_none());
    assert!(ports[1].bond.as_ref().unwrap().ovsdb.is_some());

    let mut without = OvsBridgeInterface { base: base("br1", InterfaceType::OvsBridge, InterfaceState::Up), bridge: None };
    without.sanitize_current_for_verify();
    assert!(without.bridge.is_none());
}

#[test]
fn bridge_config_update_takes_the_ports_of_the_other() {
    let mut mine = OvsBridgeConfig { ports: Some(vec![port("a")]), allow_extra_patch_ports: Some(true) };
    mine.update(None);
    assert_eq!(mine.ports.as_ref().unwrap()[0].name, "a");
    let other = OvsBridgeConfig { ports: Some(vec![port("b"), port("c")]), allow_extra_patch_ports: None };
    mine.update(Some(&other));
    let names: Vec<&str> = mine.ports.as_ref().unwrap().iter().map(|p| p.name.as_str()).collect();
    assert_eq!(names, vec!["b", "c"]);
    assert_eq!(mine.allow_extra_patch_ports, Some(true));
    let none = OvsBridgeConfig { ports: None, allow_extra_patch_ports: None };
    mine.update(Some(&none));
    assert!(mine.ports.is_none());
}

#[test]
fn update_ovs_bridge_merges_or_takes_over() {
    let mut mine = bridge("br0", Some(vec![port("a")]), Some(false));
    let other = bridge("br0", Some(vec![port("b")]), Some(true));
    mine.update_ovs_bridge(&other);
    assert_eq!(port_names(&mine), vec!["b"]);
    assert_eq!(mine.bridge.as_ref().unwrap().allow_extra_patch_ports, Some(false));

    let mut bare = OvsBridgeInterface { base: base("br0", InterfaceType::OvsBridge, InterfaceState::Up), bridge: None };
    bare.update_ovs_bridge(&other);
    assert_eq!(port_names(&bare), vec!["b"]);
    assert_eq!(bare.bridge.as_ref().unwrap().allow_extra_patch_ports, Some(true));
}

#[test]
fn update_ovs_iface_takes_what_the_other_states() {
    let mut mine = OvsInterface {
        base: base("ovs0", InterfaceType::OvsInterface, InterfaceState::Up),
        patch: Some(OvsPatchConfig { peer: "patch-a".to_string() }),
        dpdk: None,
    };
    let other = OvsInterface {
        base: base("ovs0", InterfaceType::OvsInterface, InterfaceState::Up),
        patch: None,
        dpdk: Some(OvsDpdkConfig { devargs: "0000:00:01.0".to_string() }),
    };
    mine.update_ovs_iface(&other);
    assert_eq!(mine.patch.as_ref().unwrap().peer, "patch-a");
    assert_eq!(mine.dpdk.as_ref().unwrap().devargs, "0000:00:01.0");
    assert!(mine.is_ovs_patch_port());
    let replacing = OvsInterface {
        base: base("ovs0", InterfaceType::OvsInterface, InterfaceState::Up),
        patch: Some(OvsPatchConfig { peer: "patch-b".to_string() }),
        dpdk: None,
    };
    mine.update_ovs_iface(&replacing);
    assert_eq!(mine.patch.as_ref().unwrap().peer, "patch-b");
}

#[test]
fn bridge_ports_name_bond_members() {
    let b = bridge(
        "br0",
        Some(vec![
            port("eth1"),
            OvsBridgePortConfig {
                name: "bond1".to_string(),
                bond: Some(OvsBridgeBondConfig { ports: Some(vec!["eth2".to_string(), "eth3".to_string()]), ovsdb: None }),
            },
            port("patch0"),
        ]),
        None,
    );
    assert_eq!(b.ports().unwrap(), vec!["eth1", "eth2", "eth3", "patch0"]);
    assert!(bridge("br1", None, None).ports().is_none());
    let mut b = b;
    b.remove_ports(&vec!["eth1".to_string(), "eth2".to_string()]);
    assert_eq!(port_names(&b), vec!["bond1", "patch0"]);
}

fn entry(desired: OvsBridgeInterface) -> MergedInterface {
    let d = Interface::OvsBridge(desired);
    MergedInterface::new_desired(d, &Interfaces::new())
}

#[test]
fn extra_patch_ports_are_taken_off_the_current_bridge() {
    let desired = bridge("br0", Some(vec![port("eth1")]), Some(true));
    let mut merged = MergedInterfaces::empty();
    merged.add(entry(desired));
    let mut current = Interfaces {
        ifaces: vec![
            Interface::OvsBridge(bridge("br0", Some(vec![port("eth1"), port("patch0"), port("ovs0"), port("eth7")]), None)),
            ovs_iface("patch0", true),
            ovs_iface("ovs0", false),
        ],
    };
    merged.process_allow_extra_ovs_patch_ports_for_verify(&mut current);
    match &current.ifaces[0] {
        Interface::OvsBridge(b) => assert_eq!(port_names(b), vec!["eth1", "ovs0", "eth7"]),
        other => panic!("unexpected interface {other:?}"),
    }
    assert_eq!(current.ifaces.len(), 3);
    // What is compared no longer holds the word on extra patch ports ...
    match merged.user_ifaces[0].for_verify.as_ref().unwrap() {
        Interface::OvsBridge(b) => assert_eq!(b.bridge.as_ref().unwrap().allow_extra_patch_ports, None),
        other => panic!("unexpected interface {other:?}"),
    }
    // ... while what is desired still does.
    match merged.user_ifaces[0].desired.as_ref().unwrap() {
        Interface::OvsBridge(b) => assert_eq!(b.bridge.as_ref().unwrap().allow_extra_patch_ports, Some(true)),
        other => panic!("unexpected interface {other:?}"),
    }
}

#[test]
fn a_desired_patch_port_stays() {
    let desired = bridge("br0", Some(vec![port("eth1"), port("patch0")]), Some(true));
    let mut merged = MergedInterfaces::empty();
    merged.add(entry(desired));
    let mut current = Interfaces {
        ifaces: vec![
            ovs_iface("patch0", true),
            ovs_iface("patch1", true),
            Interface::OvsBridge(bridge("br0", Some(vec![port("eth1"), port("patch0"), port("patch1")]), None)),
        ],
    };
    merged.process_allow_extra_ovs_patch_ports_for_verify(&mut current);
    match &current.ifaces[2] {
        Interface::OvsBridge(b) => assert_eq!(port_names(b), vec!["eth1", "patch0"]),
        other => panic!("unexpected interface {other:?}"),
    }
}

#[test]
fn bridges_that_do_not_allow_extra_patch_ports_are_left_alone() {
    for allow in [None, Some(false)] {
        let desired = bridge("br0", Some(vec![port("eth1")]), allow);
        let mut merged = MergedInterfaces::empty();
        merged.add(entry(desired));
        let mut current = Interfaces {
            ifaces: vec![
                Interface::OvsBridge(bridge("br0", Some(vec![port("eth1"), port("patch0")]), None)),
                ovs_iface("patch0", true),
            ],
        };
        merged.process_allow_extra_ovs_patch_ports_for_verify(&mut current);
        match &current.ifaces[0] {
            Interface::OvsBridge(b) => assert_eq!(port_names(b), vec!["eth1", "patch0"]),
            other => panic!("unexpected interface {other:?}"),
        }
        match merged.user_ifaces[0].for_verify.as_ref().unwrap() {
            Interface::OvsBridge(b) => assert_eq!(b.bridge.as_ref().unwrap().allow_extra_patch_ports, allow),
            other => panic!("unexpected interface {other:?}"),
        }
    }
}

#[test]
fn a_bridge_that_is_not_up_is_left_alone() {
    let mut desired = bridge("br0", Some(vec![port("eth1")]), Some(true));
    desired.base.state = InterfaceState::Down;
    let mut merged = MergedInterfaces::empty();
    merged.add(entry(desired));
    let mut current = Interfaces {
        ifaces: vec![
            Interface::OvsBridge(bridge("br0", Some(vec![port("eth1"), port("patch0")]), None)),
            ovs_iface("patch0", true),
        ],
    };
    merged.process_allow_extra_ovs_patch_ports_for_verify(&mut current);
    match &current.ifaces[0] {
        Interface::OvsBridge(b) => assert_eq!(port_names(b), vec!["eth1", "patch0"]),
        other => panic!("unexpected interface {other:?}"),
    }
}

#[test]
fn a_bridge_verifies_in_spite_of_an_extra_patch_port() {
    let desired = Interfaces { ifaces: vec![Interface::OvsBridge(bridge("br0", Some(vec![port("eth1")]), Some(true)))] };
    let merged = MergedInterfaces::new(desired, Interfaces::new()).unwrap();
    let found = Interfaces {
        ifaces: vec![
            Interface::OvsBridge(bridge("br0", Some(vec![port("eth1"), port("patch0")]), None)),
            ovs_iface("patch0", true),
        ],
    };
    assert!(merged.verify(&found).is_ok());
    let strict = Interfaces { ifaces: vec![Interface::OvsBridge(bridge("br0", Some(vec![port("eth1")]), None))] };
    let merged = MergedInterfaces::new(strict, Interfaces::new()).unwrap();
    let e = merged.verify(&found).err().unwrap();
    assert_eq!(e.kind, ErrorKind::VerificationError);
    assert_eq!(e.msg, "Verification failure: interface.br0 desire 'up', current 'up'");
}
