use nipart::config::{DaemonConfig, DaemonOption};
use nipart::frame::unframe;
use nipart::names::{holds, is_name_le, join_names, missing_entries, pick_names_among_except};
use nipart::priority::{merge_by_priority, order_by_priority};
use nipart::strmap::{strmap_get, strmap_remove};
use nipart::text::decimal;
use nipart::{
    backoff, deliver, not_found_reply, Delivery, NipartEventAddress, BaseInterface, CliErrorKind, Data, ErrorKind, EthernetInterface, HostNameState,
    Interface, InterfaceState, InterfaceType, Interfaces, NetworkState, NipartDhcpConfig,
    NipartDhcpConfigV6, NipartError, NipartLogLevel, NipartMonitorEvent, NipartMonitorKind,
    NipartMonitorRule, NipartPluginEvent, NipartPluginInfo, NipartQueryOption, NipartRole,
    PluginRoles, ShowCommand, ShowMode,
};

#[test]
fn retries_wait_twice_as_long_each_time_up_to_the_cap() {
    let delays: Vec<u32> = (0..8).map(backoff).collect();
    assert_eq!(delays, vec![500, 1000, 2000, 4000, 5000, 5000, 5000, 5000]);
    assert_eq!(backoff(u32::MAX), 5000);
}

#[test]
fn numbers_in_decimal() {
    assert_eq!(decimal(0), "0");
    assert_eq!(decimal(7), "7");
    assert_eq!(decimal(10), "10");
    assert_eq!(decimal(30000), "30000");
    assert_eq!(decimal(u128::MAX), "340282366920938463463374607431768211455");
}

#[test]
fn names_are_joined_with_a_separator() {
    assert_eq!(join_names(&vec![], ","), "");
    assert_eq!(join_names(&vec!["a".to_string()], ","), "a");
    assert_eq!(join_names(&vec!["a".to_string(), "b".to_string(), "c".to_string()], ", "), "a, b, c");
}

#[test]
fn names_are_ordered_as_strings_are() {
    let names = ["", "a", "ab", "b", "B", "eth1", "eth10", "eth2", "é", "z"];
    for a in names {
        for b in names {
            assert_eq!(is_name_le(a, b), a <= b);
        }
    }
}

#[test]
fn lists_are_searched_by_value() {
    let list = vec!["a".to_string(), "b".to_string()];
    assert!(holds(&list, &"b".to_string()));
    assert!(!holds(&list, &"c".to_string()));
    let wanted = vec!["c".to_string(), "a".to_string(), "d".to_string()];
    assert_eq!(missing_entries(&wanted, &list), vec!["c", "d"]);
    let among = vec!["a".to_string(), "c".to_string(), "d".to_string()];
    let except = vec!["d".to_string()];
    assert_eq!(pick_names_among_except(&wanted, &among, &except), vec!["c", "a"]);
}

#[test]
fn pairs_are_looked_up_by_their_first_key() {
    let mut m = vec![
        ("a".to_string(), Some("1".to_string())),
        ("b".to_string(), None),
        ("a".to_string(), Some("2".to_string())),
    ];
    assert_eq!(strmap_get(&m, &"a".to_string()), Some(&Some("1".to_string())));
    assert_eq!(strmap_get(&m, &"b".to_string()), Some(&None));
    assert_eq!(strmap_get(&m, &"c".to_string()), None);
    assert_eq!(strmap_remove(&mut m, &"a".to_string()), Some(Some("1".to_string())));
    assert_eq!(m.len(), 2);
    assert_eq!(strmap_get(&m, &"a".to_string()), Some(&Some("2".to_string())));
    assert_eq!(strmap_remove(&mut m, &"zz".to_string()), None);
    assert_eq!(m.len(), 2);
}

#[test]
fn values_are_compared_and_copied_by_what_they_hold() {
    let a = vec![(Some("x".to_string()), 3u32), (None, 4u32)];
    let b = a.dup();
    assert!(a.same(&b));
    assert_eq!(a, b);
    let c = vec![(Some("x".to_string()), 3u32)];
    assert!(!a.same(&c));
    assert!(Box::new(5u8).same(&Box::new(5u8)));
    assert!(!Some(true).same(&None));
}

fn host(name: &str) -> NetworkState {
    let mut s = NetworkState::new();
    s.hostname = Some(HostNameState { running: Some(name.to_string()), config: None });
    s
}

fn running(s: &NetworkState) -> &str {
    s.hostname.as_ref().unwrap().running.as_deref().unwrap()
}

#[test]
fn reports_are_put_in_order_of_falling_priority() {
    let reports = vec![(host("a"), 50), (host("b"), 90), (host("c"), 50), (host("d"), 10), (host("e"), 90)];
    let sorted = order_by_priority(&reports);
    let order: Vec<(&str, u32)> = sorted.iter().map(|(s, p)| (running(s), *p)).collect();
    assert_eq!(order, vec![("b", 90), ("e", 90), ("a", 50), ("c", 50), ("d", 10)]);
}

#[test]
fn the_highest_priority_prevails_and_then_the_earliest_arrival() {
    let reports = vec![(host("a"), 50), (host("b"), 90), (host("c"), 50), (host("e"), 90)];
    assert_eq!(running(&merge_by_priority(&reports)), "b");
    let reports = vec![(host("a"), 50), (host("c"), 50)];
    assert_eq!(running(&merge_by_priority(&reports)), "a");
    assert!(merge_by_priority(&Vec::new()).hostname.is_none());
}

#[test]
fn merging_gives_the_same_result_every_time() {
    let make = || vec![(host("a"), 50), (host("b"), 90), (host("c"), 50), (host("d"), 10)];
    let first = merge_by_priority(&make());
    for _ in 0..20 {
        assert!(first.same(&merge_by_priority(&make())));
    }
}

#[test]
fn show_with_both_flags_is_an_error_in_use() {
    let e = ShowCommand::mode(true, true).err().unwrap();
    assert_eq!(e.kind, CliErrorKind::Usage);
    assert!(e.msg.contains("--diff"));
    assert!(e.msg.contains("--saved"));
    assert_eq!(e.msg, "--diff and --saved option cannot be defined at the same time");
    assert_eq!(e.exit_code(), 1);
    assert_eq!(nipart::show::exit_code(&Err(e)), 1);
}

#[test]
fn show_prints_the_saved_state_unless_told_otherwise() {
    assert_eq!(ShowCommand::mode(false, false).ok(), Some(ShowMode::Saved));
    assert_eq!(ShowCommand::mode(false, true).ok(), Some(ShowMode::Saved));
    assert_eq!(ShowCommand::mode(true, false).ok(), Some(ShowMode::Diff));
    assert_eq!(ShowCommand::NAME, "show");
    assert_eq!(nipart::show::exit_code(&Ok(())), 0);
}

#[test]
fn show_diff_prints_only_what_changed() {
    let eth = |name: &str, state: InterfaceState| {
        Interface::Ethernet(EthernetInterface {
            base: BaseInterface {
                name: name.to_string(),
                iface_type: InterfaceType::Ethernet,
                state,
                controller: None,
                mac_address: None,
                ipv4: None,
                ipv6: None,
                up_priority: 0,
            },
            veth: None,
        })
    };
    let mut post_last_commit = host("h");
    post_last_commit.interfaces = Interfaces { ifaces: vec![eth("eth0", InterfaceState::Up), eth("eth1", InterfaceState::Up)] };
    let mut running_state = host("h");
    running_state.interfaces = Interfaces { ifaces: vec![eth("eth0", InterfaceState::Up), eth("eth1", InterfaceState::Down)] };
    let diff = ShowCommand::get_diff_state(&post_last_commit, &running_state).ok().unwrap();
    assert!(diff.hostname.is_none());
    assert_eq!(diff.interfaces.ifaces.len(), 1);
    assert_eq!(diff.interfaces.ifaces[0].name(), "eth1");
    assert_eq!(diff.interfaces.ifaces[0].base_iface().state, InterfaceState::Down);
}

#[test]
fn show_diff_reports_an_error_of_the_state_model_as_such() {
    let eth = |name: &str| {
        Interface::Ethernet(EthernetInterface {
            base: BaseInterface {
                name: name.to_string(),
                iface_type: InterfaceType::Ethernet,
                state: InterfaceState::Up,
                controller: None,
                mac_address: None,
                ipv4: None,
                ipv6: None,
                up_priority: 0,
            },
            veth: None,
        })
    };
    let mut twice = NetworkState::new();
    twice.interfaces = Interfaces { ifaces: vec![eth("eth0"), eth("eth0")] };
    let e = ShowCommand::get_diff_state(&NetworkState::new(), &twice).err().unwrap();
    assert_eq!(e.kind, CliErrorKind::Daemon);
    assert_eq!(e.msg, "InvalidArgument: Interface 'eth0' is desired more than once");
    assert_eq!(e.exit_code(), 2);
    let from = nipart::CliError::from_error(&NipartError::new(ErrorKind::Timeout, "late".to_string()));
    assert_eq!(from.msg, "Timeout: late");
}

#[test]
fn plugin_events_that_are_replies() {
    let info = NipartPluginInfo::new("p".to_string(), vec![]);
    let replies = vec![
        NipartPluginEvent::QueryPluginInfoReply(info),
        NipartPluginEvent::QueryLogLevelReply(NipartLogLevel::Info),
        NipartPluginEvent::QueryNetStateReply(Box::new(NetworkState::new()), 1),
        NipartPluginEvent::ApplyNetStateReply,
        NipartPluginEvent::QueryDhcpConfigReply(Box::new(Vec::new())),
        NipartPluginEvent::ApplyDhcpConfigReply,
        NipartPluginEvent::ApplyDhcpLeaseReply,
        NipartPluginEvent::GotMonitorEvent(Box::new(NipartMonitorEvent {
            kind: NipartMonitorKind::Link,
            iface: "eth0".to_string(),
        })),
    ];
    for r in &replies {
        assert!(r.is_reply(), "{}", r.to_text());
    }
    let others = vec![
        NipartPluginEvent::Nil,
        NipartPluginEvent::Quit,
        NipartPluginEvent::QueryPluginInfo,
        NipartPluginEvent::ChangeLogLevel(NipartLogLevel::Info),
        NipartPluginEvent::QueryLogLevel,
        NipartPluginEvent::QueryNetState(NipartQueryOption::running()),
        NipartPluginEvent::QueryRelatedNetState(Box::new(NetworkState::new())),
        NipartPluginEvent::QueryDhcpConfig(Box::new(Vec::new())),
        NipartPluginEvent::ApplyDhcpConfig(Box::new(Vec::new())),
        NipartPluginEvent::RegisterMonitorRule(Box::new(NipartMonitorRule {
            kind: NipartMonitorKind::Address,
            iface: "eth0".to_string(),
        })),
    ];
    for o in &others {
        assert!(!o.is_reply(), "{}", o.to_text());
    }
}

#[test]
fn plugin_event_texts() {
    assert_eq!(NipartPluginEvent::Nil.to_text(), "none");
    assert_eq!(NipartPluginEvent::Quit.to_text(), "quit");
    assert_eq!(NipartPluginEvent::QueryPluginInfo.to_text(), "query_plugin_info");
    assert_eq!(NipartPluginEvent::ChangeLogLevel(NipartLogLevel::Warn).to_text(), "change_log_level:warn");
    assert_eq!(NipartPluginEvent::QueryNetState(NipartQueryOption::saved()).to_text(), "query_netstate");
    assert_eq!(NipartPluginEvent::QueryNetStateReply(Box::new(NetworkState::new()), 1).to_text(), "query_netstate_reply");
    assert_eq!(NipartPluginEvent::ApplyNetStateReply.to_text(), "apply_netstate_reply");
    assert_eq!(NipartPluginEvent::ApplyDhcpConfig(Box::new(Vec::new())).to_text(), "apply_dhcp_config:");
    let configs = vec![
        NipartDhcpConfig::V4(nipart::NipartDhcpConfigV4::new("eth0".to_string(), true)),
        NipartDhcpConfig::V6(NipartDhcpConfigV6::new("eth1".to_string(), false)),
    ];
    assert_eq!(
        NipartPluginEvent::ApplyDhcpConfig(Box::new(configs)).to_text(),
        "apply_dhcp_config:eth0:dhcpv4:on,eth1:dhcpv6:off"
    );
    assert_eq!(NipartPluginEvent::ApplyDhcpLeaseReply.to_text(), "apply_dhcp_lease_reply");
    let rule = NipartMonitorRule { kind: NipartMonitorKind::Link, iface: "eth0".to_string() };
    assert_eq!(NipartPluginEvent::RegisterMonitorRule(Box::new(rule)).to_text(), "register_monitor_rule:link:eth0");
    let rule = NipartMonitorRule { kind: NipartMonitorKind::Address, iface: "eth1".to_string() };
    assert_eq!(NipartPluginEvent::RemoveMonitorRule(Box::new(rule)).to_text(), "remove_monitor_rule:address:eth1");
    let event = NipartMonitorEvent { kind: NipartMonitorKind::Link, iface: "eth0".to_string() };
    assert_eq!(NipartPluginEvent::GotMonitorEvent(Box::new(event)).to_text(), "got_monitor_event:link:eth0");
}

#[test]
fn role_names_and_counts() {
    assert_eq!(NipartRole::Dhcp.name(), "dhcp");
    assert_eq!(NipartRole::QueryAndApply.name(), "query_and_apply");
    assert_eq!(NipartRole::ApplyDhcpLease.name(), "apply_dhcp_lease");
    assert_eq!(NipartRole::Ovs.name(), "ovs");
    assert_eq!(NipartRole::Lldp.name(), "lldp");
    assert_eq!(NipartRole::Monitor.name(), "monitor");
    assert_eq!(NipartRole::Config.name(), "config");
    let roles = PluginRoles::new(vec![
        NipartPluginInfo::new("a".to_string(), vec![NipartRole::QueryAndApply, NipartRole::Ovs]),
        NipartPluginInfo::new("b".to_string(), vec![NipartRole::QueryAndApply]),
        NipartPluginInfo::new("c".to_string(), vec![NipartRole::Dhcp]),
    ]);
    assert_eq!(roles.all_plugin_count(), 3);
    assert_eq!(roles.role_count(NipartRole::QueryAndApply), 2);
    assert_eq!(roles.role_count(NipartRole::Dhcp), 1);
    assert_eq!(roles.role_count(NipartRole::Config), 0);
}

#[test]
fn a_frame_is_the_length_and_then_the_message() {
    let framed = nipart::frame::frame(&vec![1, 2, 3]).unwrap();
    assert_eq!(framed, vec![3, 0, 0, 0, 1, 2, 3]);
    assert_eq!(nipart::frame::frame(&Vec::new()).unwrap(), vec![0, 0, 0, 0]);
    let long = vec![7u8; 258];
    let framed = nipart::frame::frame(&long).unwrap();
    assert_eq!(&framed[..4], &[2, 1, 0, 0]);
    assert_eq!(framed.len(), 262);
}

#[test]
fn a_frame_is_taken_off_a_buffer_once_it_is_whole() {
    assert_eq!(unframe(&vec![]), None);
    assert_eq!(unframe(&vec![3, 0, 0]), None);
    assert_eq!(unframe(&vec![3, 0, 0, 0, 1, 2]), None);
    assert_eq!(unframe(&vec![3, 0, 0, 0, 1, 2, 3]), Some((vec![1, 2, 3], 7)));
    assert_eq!(unframe(&vec![1, 0, 0, 0, 9, 2, 0, 0, 0, 8]), Some((vec![9], 5)));
    assert_eq!(unframe(&vec![0, 0, 0, 0]), Some((vec![], 4)));
    assert_eq!(unframe(&vec![0, 1, 0, 0, 5]), None);
}

#[test]
fn framing_round_trips() {
    for len in [0usize, 1, 255, 256, 70000] {
        let message: Vec<u8> = (0..len).map(|i| (i % 251) as u8).collect();
        let mut buf = nipart::frame::frame(&message).unwrap();
        buf.extend_from_slice(&[9, 9, 9]);
        let (back, taken) = nipart::frame::unframe(&buf).unwrap();
        assert_eq!(back, message);
        assert_eq!(taken, len + 4);
    }
}

#[test]
fn the_daemon_recognizes_three_options() {
    assert_eq!(DaemonOption::recognize("socket_dir").ok(), Some(DaemonOption::SocketDir));
    assert_eq!(DaemonOption::recognize("log_level").ok(), Some(DaemonOption::LogLevel));
    assert_eq!(DaemonOption::recognize("plugin_search_path").ok(), Some(DaemonOption::PluginSearchPath));
    assert_eq!(DaemonOption::PluginSearchPath.name(), "plugin_search_path");
    let e = DaemonOption::recognize("socket").err().unwrap();
    assert_eq!(e.kind, ErrorKind::InvalidArgument);
    assert_eq!(e.msg, "Unknown option 'socket'");

    let c = DaemonConfig::new();
    assert_eq!(c.socket_dir, "/run/nipart");
    assert_eq!(c.log_level, NipartLogLevel::Info);
    assert_eq!(c.plugin_search_path, "/usr/lib/nipart/plugins");
}

#[test]
fn unrecognized_options_are_rejected() {
    let pair = |k: &str, v: &str| (k.to_string(), v.to_string());
    let c = DaemonConfig::from_options(&vec![pair("log_level", "debug"), pair("socket_dir", "/tmp/s")]).unwrap();
    assert_eq!(c.log_level, NipartLogLevel::Debug);
    assert_eq!(c.socket_dir, "/tmp/s");
    assert_eq!(c.plugin_search_path, "/usr/lib/nipart/plugins");
    let e = DaemonConfig::from_options(&vec![pair("log_level", "debug"), pair("colour", "red"), pair("log_level", "x")])
        .err()
        .unwrap();
    assert_eq!(e.kind, ErrorKind::InvalidArgument);
    assert_eq!(e.msg, "Unknown option 'colour'");
    let e = DaemonConfig::from_options(&vec![pair("log_level", "loud")]).err().unwrap();
    assert_eq!(e.msg, "Unknown log level 'loud'");
    let mut c = DaemonConfig::new();
    assert!(c.set("log_level", "loud").is_err());
    assert_eq!(c.log_level, NipartLogLevel::Info);
    assert!(c.set("plugin_search_path", "/opt/p").is_ok());
    assert_eq!(c.plugin_search_path, "/opt/p");
    assert_eq!(nipart::config::parse_log_level("trace").ok(), Some(NipartLogLevel::Trace));
    assert_eq!(nipart::config::parse_log_level("off").ok(), Some(NipartLogLevel::Off));
}

#[test]
fn an_error_turns_into_an_event_for_the_user() {
    let e: nipart::NipartEvent = NipartError::new(ErrorKind::Bug, "b".to_string()).into();
    assert!(e.is_err());
    assert!(matches!(e.dst, nipart::NipartEventAddress::User));
    assert!(matches!(e.src, nipart::NipartEventAddress::Daemon));
    assert_eq!(e.timeout, 30000);
}

fn some_plugins() -> PluginRoles {
    PluginRoles::new(vec![
        NipartPluginInfo::new("nispor".to_string(), vec![NipartRole::QueryAndApply, NipartRole::ApplyDhcpLease]),
        NipartPluginInfo::new("mozim".to_string(), vec![NipartRole::Dhcp]),
        NipartPluginInfo::new("baize".to_string(), vec![NipartRole::QueryAndApply, NipartRole::Dhcp]),
    ])
}

#[test]
fn the_switch_delivers_by_destination() {
    let roles = some_plugins();
    assert_eq!(deliver(&NipartEventAddress::User, &roles), Delivery::ToUser);
    assert_eq!(deliver(&NipartEventAddress::Daemon, &roles), Delivery::ToDaemon);
    assert_eq!(deliver(&NipartEventAddress::Commander, &roles), Delivery::ToCommander);
    assert_eq!(
        deliver(&NipartEventAddress::Unicast("mozim".to_string()), &roles),
        Delivery::ToPlugins(vec!["mozim".to_string()])
    );
    assert_eq!(
        deliver(&NipartEventAddress::Unicast("nobody".to_string()), &roles),
        Delivery::NotFound("nobody".to_string())
    );
    assert_eq!(
        deliver(&NipartEventAddress::Group(NipartRole::QueryAndApply), &roles),
        Delivery::ToPlugins(vec!["nispor".to_string(), "baize".to_string()])
    );
    assert_eq!(
        deliver(&NipartEventAddress::Group(NipartRole::Monitor), &roles),
        Delivery::ToPlugins(vec![])
    );
    assert_eq!(
        deliver(&NipartEventAddress::AllPlugins, &roles),
        Delivery::ToPlugins(vec!["nispor".to_string(), "mozim".to_string(), "baize".to_string()])
    );
    // The DHCP plugin is one plugin at most.
    assert_eq!(
        deliver(&NipartEventAddress::Dhcp, &roles),
        Delivery::ToPlugins(vec!["mozim".to_string()])
    );
    assert_eq!(
        deliver(&NipartEventAddress::Dhcp, &PluginRoles::new(Vec::new())),
        Delivery::ToPlugins(vec![])
    );
}

#[test]
fn the_switch_fans_out_to_as_many_plugins_as_replies_are_awaited() {
    let roles = some_plugins();
    for role in [NipartRole::QueryAndApply, NipartRole::Dhcp, NipartRole::Config, NipartRole::ApplyDhcpLease] {
        assert_eq!(roles.names_with_role(role).len(), roles.role_count(role));
    }
    assert_eq!(roles.all_names().len(), roles.all_plugin_count());
    assert!(roles.is_known(&"baize".to_string()));
    assert!(!roles.is_known(&"bai".to_string()));
}

#[test]
fn an_event_for_an_unknown_plugin_is_answered_with_an_error() {
    let event = nipart::NipartEvent {
        uuid: 99,
        user: nipart::NipartUserEvent::Nil,
        plugin: NipartPluginEvent::Quit,
        src: NipartEventAddress::Commander,
        dst: NipartEventAddress::Unicast("nobody".to_string()),
        timeout: 700,
        postpone_millis: 20,
    };
    let reply = not_found_reply(&event, "nobody");
    assert_eq!(reply.uuid, 99);
    assert_eq!(reply.dst, NipartEventAddress::Commander);
    assert_eq!(reply.src, NipartEventAddress::Daemon);
    assert_eq!(reply.timeout, 700);
    assert_eq!(reply.postpone_millis, 0);
    assert_eq!(reply.plugin, NipartPluginEvent::Nil);
    match reply.user {
        nipart::NipartUserEvent::Error(e) => {
            assert_eq!(e.kind, ErrorKind::PluginNotFound);
            assert_eq!(e.msg, "Plugin 'nobody' not found");
        }
        other => panic!("unexpected reply {other:?}"),
    }
}
