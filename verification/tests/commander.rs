use nipart::{
    process_event, process_workflow_queue, BaseInterface, ErrorKind, EthernetInterface, Interface,
    InterfaceIpv4, InterfaceState, InterfaceType, Interfaces, NetworkState, NipartApplyOption,
    NipartDhcpLease, NipartDhcpLeaseV4, NipartError, NipartEvent, NipartEventAddress,
    NipartLogLevel, NipartPluginEvent, NipartPluginInfo, NipartQueryOption, NipartRole,
    NipartUserEvent, PluginRoles, RouteEntry, WorkFlowQueue,
};

fn three_plugins() -> PluginRoles {
    PluginRoles::new(vec![
        NipartPluginInfo::new("nispor".to_string(), vec![NipartRole::QueryAndApply]),
        NipartPluginInfo::new("mozim".to_string(), vec![NipartRole::Dhcp]),
        NipartPluginInfo::new("monitor".to_string(), vec![NipartRole::Monitor]),
    ])
}

fn one_applier() -> PluginRoles {
    PluginRoles::new(vec![NipartPluginInfo::new(
        "nispor".to_string(),
        vec![NipartRole::QueryAndApply],
    )])
}

fn user_event(uuid: u128, user: NipartUserEvent, timeout: u32) -> NipartEvent {
    NipartEvent {
        uuid,
        user,
        plugin: NipartPluginEvent::Nil,
        src: NipartEventAddress::User,
        dst: NipartEventAddress::Commander,
        timeout,
        postpone_millis: 0,
    }
}

fn plugin_event(uuid: u128, from: &str, plugin: NipartPluginEvent) -> NipartEvent {
    NipartEvent {
        uuid,
        user: NipartUserEvent::Nil,
        plugin,
        src: NipartEventAddress::Unicast(from.to_string()),
        dst: NipartEventAddress::Commander,
        timeout: 1000,
        postpone_millis: 0,
    }
}

fn eth0(address: &str) -> Interface {
    Interface::Ethernet(EthernetInterface {
        base: BaseInterface {
            name: "eth0".to_string(),
            iface_type: InterfaceType::Ethernet,
            state: InterfaceState::Up,
            controller: None,
            mac_address: None,
            ipv4: Some(InterfaceIpv4 {
                enabled: true,
                dhcp: Some(false),
                dhcp_client_id: None,
                addresses: Some(vec![(address.to_string(), 24)]),
            }),
            ipv6: None,
            up_priority: 0,
        },
        veth: None,
    })
}

fn state_with(iface: Interface) -> NetworkState {
    let mut s = NetworkState::new();
    s.interfaces = Interfaces { ifaces: vec![iface] };
    s
}

fn route() -> RouteEntry {
    RouteEntry {
        destination: "198.51.100.0/24".to_string(),
        next_hop_iface: "eth0".to_string(),
        next_hop_addr: "10.0.0.254".to_string(),
        metric: 100,
    }
}

fn to_user(events: &[NipartEvent]) -> usize {
    events.iter().filter(|e| matches!(e.dst, NipartEventAddress::User)).count()
}

fn info_reply(uuid: u128, name: &str, role: NipartRole) -> NipartEvent {
    plugin_event(
        uuid,
        name,
        NipartPluginEvent::QueryPluginInfoReply(NipartPluginInfo::new(name.to_string(), vec![role])),
    )
}

#[test]
fn query_plugin_info_with_three_plugins() {
    let roles = three_plugins();
    let mut queue = WorkFlowQueue::new();
    let sent = process_event(user_event(11, NipartUserEvent::QueryPluginInfo, 3000), &mut queue, &roles, 0);
    assert_eq!(sent.len(), 1);
    assert_eq!(sent[0].uuid, 11);
    assert!(matches!(sent[0].dst, NipartEventAddress::AllPlugins));
    assert!(matches!(sent[0].src, NipartEventAddress::Commander));
    assert!(matches!(sent[0].plugin, NipartPluginEvent::QueryPluginInfo));
    assert_eq!(queue.workflows.len(), 1);

    let sent = process_event(info_reply(11, "monitor", NipartRole::Monitor), &mut queue, &roles, 10);
    assert!(sent.is_empty());
    let sent = process_event(info_reply(11, "nispor", NipartRole::QueryAndApply), &mut queue, &roles, 20);
    assert!(sent.is_empty());
    let sent = process_event(info_reply(11, "mozim", NipartRole::Dhcp), &mut queue, &roles, 30);
    assert_eq!(sent.len(), 1);
    assert_eq!(sent[0].uuid, 11);
    assert!(matches!(sent[0].dst, NipartEventAddress::User));
    match &sent[0].user {
        NipartUserEvent::QueryPluginInfoReply(infos) => {
            let names: Vec<&str> = infos.iter().map(|i| i.name.as_str()).collect();
            assert_eq!(names, vec!["monitor", "nispor", "mozim"]);
        }
        other => panic!("unexpected reply {other:?}"),
    }
    assert!(queue.workflows.is_empty());

    // Nothing more is sent for the request, whatever arrives.
    let sent = process_event(info_reply(11, "mozim", NipartRole::Dhcp), &mut queue, &roles, 40);
    assert!(sent.is_empty());
    assert!(process_workflow_queue(&mut queue, 100_000).is_empty());
}

#[test]
fn query_log_level_answers_by_plugin_name() {
    let roles = one_applier();
    let mut queue = WorkFlowQueue::new();
    let sent = process_event(user_event(5, NipartUserEvent::QueryLogLevel, 3000), &mut queue, &roles, 0);
    assert_eq!(sent.len(), 1);
    assert!(matches!(sent[0].plugin, NipartPluginEvent::QueryLogLevel));
    let sent = process_event(
        plugin_event(5, "nispor", NipartPluginEvent::QueryLogLevelReply(NipartLogLevel::Debug)),
        &mut queue,
        &roles,
        1,
    );
    assert_eq!(sent.len(), 1);
    match &sent[0].user {
        NipartUserEvent::QueryLogLevelReply(levels) => {
            assert_eq!(levels.len(), 1);
            assert_eq!(levels[0].0, "nispor");
            assert_eq!(levels[0].1, NipartLogLevel::Debug);
        }
        other => panic!("unexpected reply {other:?}"),
    }
}

#[test]
fn change_log_level_awaits_no_reply() {
    let roles = three_plugins();
    let mut queue = WorkFlowQueue::new();
    let sent = process_event(
        user_event(6, NipartUserEvent::ChangeLogLevel(NipartLogLevel::Trace), 3000),
        &mut queue,
        &roles,
        0,
    );
    assert_eq!(sent.len(), 2);
    assert!(matches!(sent[0].dst, NipartEventAddress::AllPlugins));
    assert!(matches!(sent[0].plugin, NipartPluginEvent::ChangeLogLevel(NipartLogLevel::Trace)));
    assert!(matches!(sent[1].dst, NipartEventAddress::User));
    assert!(matches!(sent[1].user, NipartUserEvent::ChangeLogLevel(NipartLogLevel::Trace)));
    assert_eq!(sent[1].uuid, 6);
    assert!(queue.workflows.is_empty());
}

#[test]
fn quit_goes_to_all_plugins() {
    let roles = three_plugins();
    let mut queue = WorkFlowQueue::new();
    let sent = process_event(user_event(8, NipartUserEvent::Quit, 3000), &mut queue, &roles, 0);
    assert_eq!(sent.len(), 2);
    assert!(matches!(sent[0].plugin, NipartPluginEvent::Quit));
    assert!(matches!(sent[0].dst, NipartEventAddress::AllPlugins));
    assert!(matches!(sent[1].user, NipartUserEvent::Quit));
    assert_eq!(to_user(&sent), 1);
}

#[test]
fn query_net_state_asks_the_role_for_the_kind_of_state() {
    let roles = PluginRoles::new(vec![
        NipartPluginInfo::new("nispor".to_string(), vec![NipartRole::QueryAndApply]),
        NipartPluginInfo::new("conf".to_string(), vec![NipartRole::Config]),
    ]);
    let mut queue = WorkFlowQueue::new();
    let sent = process_event(
        user_event(1, NipartUserEvent::QueryNetState(NipartQueryOption::running()), 3000),
        &mut queue,
        &roles,
        0,
    );
    assert!(matches!(sent[0].dst, NipartEventAddress::Group(NipartRole::QueryAndApply)));
    let sent = process_event(
        user_event(2, NipartUserEvent::QueryNetState(NipartQueryOption::saved()), 3000),
        &mut queue,
        &roles,
        0,
    );
    assert!(matches!(sent[0].dst, NipartEventAddress::Group(NipartRole::Config)));
    let sent = process_event(
        user_event(3, NipartUserEvent::QueryNetState(NipartQueryOption::post_last_commit()), 3000),
        &mut queue,
        &roles,
        0,
    );
    assert!(matches!(sent[0].dst, NipartEventAddress::Group(NipartRole::Config)));
    let sent = process_event(
        user_event(4, NipartUserEvent::QueryCommits(NipartQueryOption::running()), 3000),
        &mut queue,
        &roles,
        0,
    );
    assert!(matches!(sent[0].dst, NipartEventAddress::Group(NipartRole::Config)));
    assert_eq!(queue.workflows.len(), 4);
}

#[test]
fn query_net_state_merges_by_priority() {
    let roles = PluginRoles::new(vec![
        NipartPluginInfo::new("a".to_string(), vec![NipartRole::QueryAndApply]),
        NipartPluginInfo::new("b".to_string(), vec![NipartRole::QueryAndApply]),
    ]);
    let mut queue = WorkFlowQueue::new();
    process_event(
        user_event(1, NipartUserEvent::QueryNetState(NipartQueryOption::running()), 3000),
        &mut queue,
        &roles,
        0,
    );
    let high = state_with(eth0("10.0.0.1"));
    let low = state_with(eth0("10.0.0.2"));
    let sent = process_event(
        plugin_event(1, "a", NipartPluginEvent::QueryNetStateReply(Box::new(high), 90)),
        &mut queue,
        &roles,
        1,
    );
    assert!(sent.is_empty());
    let sent = process_event(
        plugin_event(1, "b", NipartPluginEvent::QueryNetStateReply(Box::new(low), 10)),
        &mut queue,
        &roles,
        2,
    );
    assert_eq!(sent.len(), 1);
    match &sent[0].user {
        NipartUserEvent::QueryNetStateReply(state) => {
            assert_eq!(state.interfaces.ifaces.len(), 1);
            let ip = state.interfaces.ifaces[0].base_iface().ipv4.as_ref().unwrap();
            assert_eq!(ip.addresses.as_ref().unwrap()[0].0, "10.0.0.1");
        }
        other => panic!("unexpected reply {other:?}"),
    }
}

#[test]
fn a_failed_query_beside_a_good_one_is_passed_over() {
    let roles = PluginRoles::new(vec![
        NipartPluginInfo::new("a".to_string(), vec![NipartRole::QueryAndApply]),
        NipartPluginInfo::new("b".to_string(), vec![NipartRole::QueryAndApply]),
    ]);
    let mut queue = WorkFlowQueue::new();
    process_event(
        user_event(1, NipartUserEvent::QueryNetState(NipartQueryOption::running()), 3000),
        &mut queue,
        &roles,
        0,
    );
    let mut failed = plugin_event(
        1,
        "a",
        NipartPluginEvent::QueryNetStateReply(Box::new(NetworkState::new()), 90),
    );
    failed.user = NipartUserEvent::Error(NipartError::new(ErrorKind::PluginFailure, "x".to_string()));
    process_event(failed, &mut queue, &roles, 1);
    let sent = process_event(
        plugin_event(1, "b", NipartPluginEvent::QueryNetStateReply(Box::new(state_with(eth0("10.0.0.2"))), 10)),
        &mut queue,
        &roles,
        2,
    );
    assert_eq!(sent.len(), 1);
    assert!(matches!(sent[0].user, NipartUserEvent::QueryNetStateReply(_)));
}

#[test]
fn a_query_that_only_fails_fails_the_workflow() {
    let roles = one_applier();
    let mut queue = WorkFlowQueue::new();
    process_event(
        user_event(1, NipartUserEvent::QueryNetState(NipartQueryOption::running()), 3000),
        &mut queue,
        &roles,
        0,
    );
    let mut failed = plugin_event(
        1,
        "nispor",
        NipartPluginEvent::QueryNetStateReply(Box::new(NetworkState::new()), 90),
    );
    failed.user =
        NipartUserEvent::Error(NipartError::new(ErrorKind::PluginFailure, "broken".to_string()));
    let sent = process_event(failed, &mut queue, &roles, 1);
    assert_eq!(sent.len(), 1);
    match &sent[0].user {
        NipartUserEvent::Error(e) => {
            assert_eq!(e.kind, ErrorKind::PluginFailure);
            assert_eq!(e.msg, "broken");
        }
        other => panic!("unexpected reply {other:?}"),
    }
    assert!(queue.workflows.is_empty());
}

#[test]
fn apply_net_state_with_one_applier_and_no_dhcp_plugin() {
    let roles = one_applier();
    let mut queue = WorkFlowQueue::new();
    let desired = state_with(eth0("10.0.0.1"));
    let opt = NipartApplyOption { skip_verify: false, memory_only: false };
    let sent = process_event(
        user_event(21, NipartUserEvent::ApplyNetState(Box::new(desired), opt), 30000),
        &mut queue,
        &roles,
        0,
    );
    assert_eq!(sent.len(), 1);
    assert!(matches!(sent[0].plugin, NipartPluginEvent::QueryNetState(_)));
    assert!(matches!(sent[0].dst, NipartEventAddress::Group(NipartRole::QueryAndApply)));

    let current = state_with(eth0("192.0.2.9"));
    let sent = process_event(
        plugin_event(21, "nispor", NipartPluginEvent::QueryNetStateReply(Box::new(current), 50)),
        &mut queue,
        &roles,
        5,
    );
    assert_eq!(sent.len(), 1);
    assert!(matches!(sent[0].dst, NipartEventAddress::Group(NipartRole::QueryAndApply)));
    assert_eq!(sent[0].postpone_millis, 0);
    match &sent[0].plugin {
        NipartPluginEvent::ApplyNetState(merged, o) => {
            assert_eq!(*o, opt);
            assert_eq!(merged.interfaces.kernel_ifaces.len(), 1);
            assert!(merged.interfaces.kernel_ifaces[0].is_changed());
        }
        other => panic!("unexpected request {other:?}"),
    }

    let sent = process_event(
        plugin_event(21, "nispor", NipartPluginEvent::ApplyNetStateReply),
        &mut queue,
        &roles,
        10,
    );
    assert_eq!(sent.len(), 1);
    assert!(matches!(sent[0].plugin, NipartPluginEvent::QueryNetState(_)));

    let found = state_with(eth0("10.0.0.1"));
    let sent = process_event(
        plugin_event(21, "nispor", NipartPluginEvent::QueryNetStateReply(Box::new(found), 50)),
        &mut queue,
        &roles,
        15,
    );
    assert_eq!(sent.len(), 1);
    assert_eq!(sent[0].uuid, 21);
    assert!(matches!(sent[0].dst, NipartEventAddress::User));
    assert!(matches!(sent[0].user, NipartUserEvent::ApplyNetStateReply));
    assert!(queue.workflows.is_empty());
}

#[test]
fn apply_net_state_hands_dhcp_settings_to_the_dhcp_plugin() {
    let roles = PluginRoles::new(vec![
        NipartPluginInfo::new("nispor".to_string(), vec![NipartRole::QueryAndApply]),
        NipartPluginInfo::new("dhcp".to_string(), vec![NipartRole::Dhcp]),
    ]);
    let mut queue = WorkFlowQueue::new();
    let opt = NipartApplyOption { skip_verify: true, memory_only: false };
    process_event(
        user_event(22, NipartUserEvent::ApplyNetState(Box::new(state_with(eth0("10.0.0.1"))), opt), 30000),
        &mut queue,
        &roles,
        0,
    );
    let sent = process_event(
        plugin_event(22, "nispor", NipartPluginEvent::QueryNetStateReply(Box::new(NetworkState::new()), 50)),
        &mut queue,
        &roles,
        5,
    );
    assert_eq!(sent.len(), 1);
    assert!(matches!(sent[0].dst, NipartEventAddress::Dhcp));
    match &sent[0].plugin {
        NipartPluginEvent::ApplyDhcpConfig(configs) => {
            assert_eq!(configs.len(), 1);
            assert_eq!(configs[0].to_text(), "eth0:dhcpv4:off");
        }
        other => panic!("unexpected request {other:?}"),
    }
    let sent = process_event(
        plugin_event(22, "dhcp", NipartPluginEvent::ApplyDhcpConfigReply),
        &mut queue,
        &roles,
        6,
    );
    assert_eq!(sent.len(), 1);
    assert!(matches!(sent[0].plugin, NipartPluginEvent::ApplyNetState(_, _)));
    // Verification is switched off: the reply of the applier ends the workflow.
    let sent = process_event(
        plugin_event(22, "nispor", NipartPluginEvent::ApplyNetStateReply),
        &mut queue,
        &roles,
        7,
    );
    assert_eq!(sent.len(), 1);
    assert!(matches!(sent[0].user, NipartUserEvent::ApplyNetStateReply));
}

fn apply_until_verification(queue: &mut WorkFlowQueue, roles: &PluginRoles, uuid: u128, timeout: u32) {
    let mut desired = state_with(eth0("10.0.0.1"));
    desired.routes = Some(vec![route()]);
    let opt = NipartApplyOption { skip_verify: false, memory_only: false };
    process_event(
        user_event(uuid, NipartUserEvent::ApplyNetState(Box::new(desired), opt), timeout),
        queue,
        roles,
        0,
    );
    let sent = process_event(
        plugin_event(uuid, "nispor", NipartPluginEvent::QueryNetStateReply(Box::new(NetworkState::new()), 50)),
        queue,
        roles,
        1,
    );
    assert_eq!(applies_in(&sent), 1);
    let sent = process_event(plugin_event(uuid, "nispor", NipartPluginEvent::ApplyNetStateReply), queue, roles, 2);
    assert!(matches!(sent[0].plugin, NipartPluginEvent::QueryNetState(_)));
}

fn applies_in(events: &[NipartEvent]) -> usize {
    events.iter().filter(|e| matches!(e.plugin, NipartPluginEvent::ApplyNetState(_, _))).count()
}

#[test]
fn apply_net_state_retries_after_a_failed_verification() {
    let roles = one_applier();
    let mut queue = WorkFlowQueue::new();
    apply_until_verification(&mut queue, &roles, 31, 30000);

    // The state found lacks the route.
    let lacking = state_with(eth0("10.0.0.1"));
    let sent = process_event(
        plugin_event(31, "nispor", NipartPluginEvent::QueryNetStateReply(Box::new(lacking), 50)),
        &mut queue,
        &roles,
        3,
    );
    assert_eq!(sent.len(), 1);
    assert!(matches!(sent[0].plugin, NipartPluginEvent::ApplyNetState(_, _)));
    assert_eq!(sent[0].postpone_millis, 500);
    assert_eq!(sent[0].uuid, 31);
    assert_eq!(to_user(&sent), 0);
    let mut applies = 1 + applies_in(&sent);

    let sent = process_event(
        plugin_event(31, "nispor", NipartPluginEvent::ApplyNetStateReply),
        &mut queue,
        &roles,
        600,
    );
    assert_eq!(sent.len(), 1);
    assert!(matches!(sent[0].plugin, NipartPluginEvent::QueryNetState(_)));
    applies += applies_in(&sent);

    let mut matching = state_with(eth0("10.0.0.1"));
    matching.routes = Some(vec![route()]);
    let sent = process_event(
        plugin_event(31, "nispor", NipartPluginEvent::QueryNetStateReply(Box::new(matching), 50)),
        &mut queue,
        &roles,
        700,
    );
    assert_eq!(sent.len(), 1);
    assert!(matches!(sent[0].user, NipartUserEvent::ApplyNetStateReply));
    assert!(matches!(sent[0].dst, NipartEventAddress::User));
    assert!(queue.workflows.is_empty());
    applies += applies_in(&sent);
    // The state was applied twice, no more.
    assert_eq!(applies, 2);
}

#[test]
fn apply_net_state_gives_up_when_time_runs_out() {
    let roles = one_applier();
    let mut queue = WorkFlowQueue::new();
    apply_until_verification(&mut queue, &roles, 41, 2000);

    let mut applies = 1;
    let mut now = 3;
    let mut delays = Vec::new();
    let terminal = loop {
        let lacking = state_with(eth0("10.0.0.1"));
        let sent = process_event(
            plugin_event(41, "nispor", NipartPluginEvent::QueryNetStateReply(Box::new(lacking), 50)),
            &mut queue,
            &roles,
            now,
        );
        assert_eq!(sent.len(), 1);
        if matches!(sent[0].dst, NipartEventAddress::User) {
            break sent;
        }
        assert!(matches!(sent[0].plugin, NipartPluginEvent::ApplyNetState(_, _)));
        delays.push(sent[0].postpone_millis);
        applies += 1;
        now += 1;
        let sent = process_event(
            plugin_event(41, "nispor", NipartPluginEvent::ApplyNetStateReply),
            &mut queue,
            &roles,
            now,
        );
        assert!(matches!(sent[0].plugin, NipartPluginEvent::QueryNetState(_)));
        now += 1;
    };
    assert_eq!(delays, vec![500, 1000]);
    assert_eq!(applies, 3);
    assert_eq!(terminal[0].uuid, 41);
    match &terminal[0].user {
        NipartUserEvent::Error(e) => assert_eq!(e.kind, ErrorKind::Timeout),
        other => panic!("unexpected reply {other:?}"),
    }
    assert!(queue.workflows.is_empty());
    // No further events for the request.
    let sent = process_event(
        plugin_event(41, "nispor", NipartPluginEvent::ApplyNetStateReply),
        &mut queue,
        &roles,
        now + 1,
    );
    assert!(sent.is_empty());
    assert!(process_workflow_queue(&mut queue, 1_000_000).is_empty());
}

#[test]
fn a_workflow_fails_at_its_deadline() {
    let roles = one_applier();
    let mut queue = WorkFlowQueue::new();
    process_event(
        user_event(51, NipartUserEvent::QueryNetState(NipartQueryOption::running()), 2000),
        &mut queue,
        &roles,
        1000,
    );
    assert!(process_workflow_queue(&mut queue, 2999).is_empty());
    let sent = process_workflow_queue(&mut queue, 3000);
    assert_eq!(sent.len(), 1);
    assert_eq!(sent[0].uuid, 51);
    assert!(matches!(sent[0].dst, NipartEventAddress::User));
    match &sent[0].user {
        NipartUserEvent::Error(e) => {
            assert_eq!(e.kind, ErrorKind::Timeout);
            assert_eq!(e.msg, "The request was not served in time");
        }
        other => panic!("unexpected reply {other:?}"),
    }
    assert!(queue.workflows.is_empty());
    assert!(process_workflow_queue(&mut queue, 4000).is_empty());
}

#[test]
fn timeouts_are_clamped_to_the_default() {
    let roles = one_applier();
    let mut queue = WorkFlowQueue::new();
    let sent = process_event(user_event(1, NipartUserEvent::QueryPluginInfo, 0), &mut queue, &roles, 0);
    assert_eq!(sent[0].timeout, 30000);
    let sent = process_event(user_event(2, NipartUserEvent::QueryPluginInfo, 90000), &mut queue, &roles, 0);
    assert_eq!(sent[0].timeout, 30000);
    let sent = process_event(user_event(3, NipartUserEvent::QueryPluginInfo, 1500), &mut queue, &roles, 0);
    assert_eq!(sent[0].timeout, 1500);
    assert_eq!(queue.workflows[0].0.deadline, 30000);
    assert_eq!(queue.workflows[2].0.deadline, 1500);
}

#[test]
fn a_lease_is_served_beside_a_workflow_in_flight() {
    let roles = PluginRoles::new(vec![
        NipartPluginInfo::new("nispor".to_string(), vec![NipartRole::QueryAndApply, NipartRole::ApplyDhcpLease]),
        NipartPluginInfo::new("dhcp".to_string(), vec![NipartRole::Dhcp]),
    ]);
    let mut queue = WorkFlowQueue::new();
    // Workflow A awaits one reply.
    let sent = process_event(
        user_event(100, NipartUserEvent::QueryNetState(NipartQueryOption::running()), 30000),
        &mut queue,
        &roles,
        0,
    );
    assert_eq!(sent.len(), 1);

    let lease = NipartDhcpLease::V4(NipartDhcpLeaseV4 {
        iface: "eth0".to_string(),
        ip: "192.0.2.5".to_string(),
        prefix_length: 24,
        lease_time: 3600,
    });
    let got = NipartEvent {
        uuid: 200,
        user: NipartUserEvent::Nil,
        plugin: NipartPluginEvent::GotDhcpLease(Box::new(lease)),
        src: NipartEventAddress::Dhcp,
        dst: NipartEventAddress::Commander,
        timeout: 5000,
        postpone_millis: 0,
    };
    let sent = process_event(got, &mut queue, &roles, 10);
    assert_eq!(sent.len(), 1);
    assert_eq!(sent[0].uuid, 200);
    assert!(matches!(sent[0].dst, NipartEventAddress::Group(NipartRole::ApplyDhcpLease)));
    match &sent[0].plugin {
        NipartPluginEvent::ApplyDhcpLease(l) => match &**l {
            NipartDhcpLease::V4(l) => {
                assert_eq!(l.iface, "eth0");
                assert_eq!(l.ip, "192.0.2.5");
                assert_eq!(l.prefix_length, 24);
                assert_eq!(l.lease_time, 3600);
            }
            other => panic!("unexpected lease {other:?}"),
        },
        other => panic!("unexpected request {other:?}"),
    }
    assert_eq!(queue.workflows.len(), 2);

    // B ends on its own; no user waits for it.
    let sent = process_event(
        plugin_event(200, "nispor", NipartPluginEvent::ApplyDhcpLeaseReply),
        &mut queue,
        &roles,
        20,
    );
    assert!(sent.is_empty());
    assert_eq!(queue.workflows.len(), 1);
    assert_eq!(queue.workflows[0].0.uuid, 100);

    // A is answered as soon as its reply arrives.
    let sent = process_event(
        plugin_event(100, "nispor", NipartPluginEvent::QueryNetStateReply(Box::new(NetworkState::new()), 50)),
        &mut queue,
        &roles,
        30,
    );
    assert_eq!(sent.len(), 1);
    assert_eq!(sent[0].uuid, 100);
    assert!(matches!(sent[0].user, NipartUserEvent::QueryNetStateReply(_)));
    assert!(queue.workflows.is_empty());
}

#[test]
fn a_reply_without_a_workflow_is_dropped() {
    let roles = one_applier();
    let mut queue = WorkFlowQueue::new();
    let sent = process_event(
        plugin_event(77, "nispor", NipartPluginEvent::ApplyNetStateReply),
        &mut queue,
        &roles,
        0,
    );
    assert!(sent.is_empty());
    assert!(queue.workflows.is_empty());
    assert!(!queue.add_reply(plugin_event(77, "nispor", NipartPluginEvent::ApplyNetStateReply)));
}

#[test]
fn a_reply_of_the_wrong_kind_is_not_taken() {
    let roles = one_applier();
    let mut queue = WorkFlowQueue::new();
    process_event(user_event(9, NipartUserEvent::QueryPluginInfo, 3000), &mut queue, &roles, 0);
    assert!(!queue.add_reply(plugin_event(9, "nispor", NipartPluginEvent::ApplyNetStateReply)));
    assert!(queue.add_reply(info_reply(9, "nispor", NipartRole::QueryAndApply)));
    // The replies are complete: a further one is not taken.
    assert!(!queue.add_reply(info_reply(9, "nispor", NipartRole::QueryAndApply)));
}

#[test]
fn events_that_ask_for_nothing_are_dropped() {
    let roles = one_applier();
    let mut queue = WorkFlowQueue::new();
    assert!(process_event(user_event(1, NipartUserEvent::Nil, 3000), &mut queue, &roles, 0).is_empty());
    assert!(process_event(user_event(1, NipartUserEvent::ApplyNetStateReply, 3000), &mut queue, &roles, 0).is_empty());
    assert!(process_event(plugin_event(1, "nispor", NipartPluginEvent::QueryPluginInfo), &mut queue, &roles, 0).is_empty());
    assert!(queue.workflows.is_empty());
}

#[test]
fn exactly_one_reply_to_the_user_over_a_whole_run() {
    let roles = three_plugins();
    let mut queue = WorkFlowQueue::new();
    let mut all = Vec::new();
    all.extend(process_event(user_event(11, NipartUserEvent::QueryPluginInfo, 3000), &mut queue, &roles, 0));
    all.extend(process_workflow_queue(&mut queue, 5));
    all.extend(process_event(info_reply(11, "monitor", NipartRole::Monitor), &mut queue, &roles, 10));
    all.extend(process_workflow_queue(&mut queue, 15));
    all.extend(process_event(info_reply(11, "nispor", NipartRole::QueryAndApply), &mut queue, &roles, 20));
    all.extend(process_event(info_reply(11, "mozim", NipartRole::Dhcp), &mut queue, &roles, 30));
    all.extend(process_workflow_queue(&mut queue, 5000));
    all.extend(process_event(info_reply(11, "mozim", NipartRole::Dhcp), &mut queue, &roles, 6000));
    assert_eq!(to_user(&all), 1);
    assert!(all.iter().all(|e| e.uuid == 11));
}

#[test]
fn the_account_of_retries_stays_in_order() {
    let roles = one_applier();
    let mut queue = WorkFlowQueue::new();
    assert!(queue.is_wf());
    apply_until_verification(&mut queue, &roles, 61, 30000);
    assert!(queue.is_wf());
    for round in 0..4u32 {
        let lacking = state_with(eth0("10.0.0.1"));
        let sent = process_event(
            plugin_event(61, "nispor", NipartPluginEvent::QueryNetStateReply(Box::new(lacking), 50)),
            &mut queue,
            &roles,
            10,
        );
        assert_eq!(sent[0].postpone_millis, [500, 1000, 2000, 4000][round as usize]);
        assert!(queue.is_wf());
        assert_eq!(queue.workflows[0].0.retries, round + 1);
        assert_eq!(queue.workflows[0].0.backoff_spent, [500, 1500, 3500, 7500][round as usize]);
        process_event(plugin_event(61, "nispor", NipartPluginEvent::ApplyNetStateReply), &mut queue, &roles, 11);
    }
    queue.workflows[0].0.backoff_spent = 1;
    assert!(!queue.is_wf());
    assert!(!queue.workflows[0].0.is_wf());
}

#[test]
fn a_report_of_a_failure_reaches_the_workflow_that_awaits_replies() {
    let roles = one_applier();
    let mut queue = WorkFlowQueue::new();
    let opt = NipartApplyOption { skip_verify: false, memory_only: false };
    process_event(
        user_event(71, NipartUserEvent::ApplyNetState(Box::new(state_with(eth0("10.0.0.1"))), opt), 30000),
        &mut queue,
        &roles,
        0,
    );
    let sent = process_event(
        plugin_event(71, "nispor", NipartPluginEvent::QueryNetStateReply(Box::new(NetworkState::new()), 50)),
        &mut queue,
        &roles,
        1,
    );
    assert!(matches!(sent[0].plugin, NipartPluginEvent::ApplyNetState(_, _)));
    // Applying fails: the plugin reports the failure and nothing else.
    let failure = nipart::plugin_nispor::handle_apply(
        Err(NipartError::new(ErrorKind::PluginFailure, "no such device".to_string())),
        71,
    );
    assert!(matches!(failure.plugin, NipartPluginEvent::Nil));
    let sent = process_event(failure, &mut queue, &roles, 2);
    assert_eq!(sent.len(), 1);
    assert_eq!(sent[0].uuid, 71);
    assert!(matches!(sent[0].dst, NipartEventAddress::User));
    match &sent[0].user {
        NipartUserEvent::Error(e) => {
            assert_eq!(e.kind, ErrorKind::PluginFailure);
            assert_eq!(e.msg, "no such device");
        }
        other => panic!("unexpected reply {other:?}"),
    }
    assert!(queue.workflows.is_empty());
}

#[test]
fn an_unknown_plugin_fails_the_workflow_at_once() {
    let roles = one_applier();
    let mut queue = WorkFlowQueue::new();
    let sent = process_event(
        user_event(72, NipartUserEvent::QueryNetState(NipartQueryOption::running()), 30000),
        &mut queue,
        &roles,
        0,
    );
    // The switch finds no plugin to hand the request to.
    let mut astray = NipartEvent {
        uuid: sent[0].uuid,
        user: NipartUserEvent::Nil,
        plugin: NipartPluginEvent::QueryNetState(NipartQueryOption::running()),
        src: NipartEventAddress::Commander,
        dst: NipartEventAddress::Unicast("nobody".to_string()),
        timeout: sent[0].timeout,
        postpone_millis: 0,
    };
    astray.timeout = 30000;
    let reply = nipart::not_found_reply(&astray, "nobody");
    let sent = process_event(reply, &mut queue, &roles, 1);
    assert_eq!(sent.len(), 1);
    assert!(matches!(sent[0].dst, NipartEventAddress::User));
    match &sent[0].user {
        NipartUserEvent::Error(e) => assert_eq!(e.kind, ErrorKind::PluginNotFound),
        other => panic!("unexpected reply {other:?}"),
    }
    assert!(queue.workflows.is_empty());
}

#[test]
fn a_report_of_a_failure_without_a_workflow_is_dropped() {
    let roles = one_applier();
    let mut queue = WorkFlowQueue::new();
    let failure = nipart::plugin_nispor::handle_apply(
        Err(NipartError::new(ErrorKind::PluginFailure, "x".to_string())),
        73,
    );
    assert!(process_event(failure, &mut queue, &roles, 0).is_empty());
    assert!(queue.workflows.is_empty());
}

#[test]
fn no_retry_is_sent_that_would_end_after_the_deadline() {
    let roles = one_applier();
    let mut queue = WorkFlowQueue::new();
    apply_until_verification(&mut queue, &roles, 81, 30000);
    // The deadline is at 30000. A retry delayed by 500 would end at it.
    let lacking = state_with(eth0("10.0.0.1"));
    let sent = process_event(
        plugin_event(81, "nispor", NipartPluginEvent::QueryNetStateReply(Box::new(lacking), 50)),
        &mut queue,
        &roles,
        29500,
    );
    assert_eq!(sent.len(), 1);
    assert!(matches!(sent[0].dst, NipartEventAddress::User));
    match &sent[0].user {
        NipartUserEvent::Error(e) => assert_eq!(e.kind, ErrorKind::Timeout),
        other => panic!("unexpected reply {other:?}"),
    }
    assert!(queue.workflows.is_empty());

    let mut queue = WorkFlowQueue::new();
    apply_until_verification(&mut queue, &roles, 82, 30000);
    let lacking = state_with(eth0("10.0.0.1"));
    let sent = process_event(
        plugin_event(82, "nispor", NipartPluginEvent::QueryNetStateReply(Box::new(lacking), 50)),
        &mut queue,
        &roles,
        29499,
    );
    assert_eq!(sent.len(), 1);
    assert!(matches!(sent[0].plugin, NipartPluginEvent::ApplyNetState(_, _)));
    assert_eq!(sent[0].postpone_millis, 500);
}

#[test]
fn routes_of_the_report_of_most_precedence_prevail() {
    let roles = PluginRoles::new(vec![
        NipartPluginInfo::new("a".to_string(), vec![NipartRole::QueryAndApply]),
        NipartPluginInfo::new("b".to_string(), vec![NipartRole::QueryAndApply]),
        NipartPluginInfo::new("c".to_string(), vec![NipartRole::QueryAndApply]),
    ]);
    let mut queue = WorkFlowQueue::new();
    process_event(
        user_event(1, NipartUserEvent::QueryNetState(NipartQueryOption::running()), 3000),
        &mut queue,
        &roles,
        0,
    );
    let mut low = NetworkState::new();
    low.routes = Some(vec![route()]);
    let mut mid = NetworkState::new();
    mid.routes = Some(Vec::new());
    let high = NetworkState::new();
    process_event(plugin_event(1, "a", NipartPluginEvent::QueryNetStateReply(Box::new(low), 10)), &mut queue, &roles, 1);
    process_event(plugin_event(1, "b", NipartPluginEvent::QueryNetStateReply(Box::new(high), 90)), &mut queue, &roles, 2);
    let sent = process_event(plugin_event(1, "c", NipartPluginEvent::QueryNetStateReply(Box::new(mid), 50)), &mut queue, &roles, 3);
    match &sent[0].user {
        NipartUserEvent::QueryNetStateReply(state) => assert_eq!(state.routes, Some(Vec::new())),
        other => panic!("unexpected reply {other:?}"),
    }
}

#[test]
fn every_workflow_of_the_queue_is_answered_once() {
    let roles = three_plugins();
    let mut queue = WorkFlowQueue::new();
    let mut all = Vec::new();
    all.extend(process_event(user_event(1, NipartUserEvent::QueryPluginInfo, 3000), &mut queue, &roles, 0));
    all.extend(process_event(user_event(2, NipartUserEvent::QueryLogLevel, 1000), &mut queue, &roles, 1));
    all.extend(process_event(info_reply(1, "nispor", NipartRole::QueryAndApply), &mut queue, &roles, 2));
    all.extend(process_event(
        plugin_event(2, "nispor", NipartPluginEvent::QueryLogLevelReply(NipartLogLevel::Info)),
        &mut queue,
        &roles,
        3,
    ));
    all.extend(process_event(info_reply(1, "mozim", NipartRole::Dhcp), &mut queue, &roles, 4));
    all.extend(process_event(user_event(3, NipartUserEvent::Quit, 1000), &mut queue, &roles, 5));
    all.extend(process_event(info_reply(1, "monitor", NipartRole::Monitor), &mut queue, &roles, 6));
    // The second request never gets all its replies and fails at its deadline.
    all.extend(process_workflow_queue(&mut queue, 1001));
    all.extend(process_workflow_queue(&mut queue, 9000));
    for uuid in [1u128, 2, 3] {
        let to_user = all
            .iter()
            .filter(|e| e.uuid == uuid && matches!(e.dst, NipartEventAddress::User))
            .count();
        assert_eq!(to_user, 1);
    }
    let second: Vec<&NipartEvent> =
        all.iter().filter(|e| e.uuid == 2 && matches!(e.dst, NipartEventAddress::User)).collect();
    assert!(second[0].is_err());
    assert!(queue.workflows.is_empty());
}

#[test]
fn query_log_level_names_each_plugin_once() {
    let roles = three_plugins();
    let mut queue = WorkFlowQueue::new();
    let sent = process_event(user_event(15, NipartUserEvent::QueryLogLevel, 3000), &mut queue, &roles, 0);
    assert_eq!(sent.len(), 1);
    let first = process_event(
        plugin_event(15, "nispor", NipartPluginEvent::QueryLogLevelReply(NipartLogLevel::Debug)),
        &mut queue,
        &roles,
        1,
    );
    assert!(first.is_empty());
    let second = process_event(
        plugin_event(15, "mozim", NipartPluginEvent::QueryLogLevelReply(NipartLogLevel::Warn)),
        &mut queue,
        &roles,
        2,
    );
    assert!(second.is_empty());
    let sent = process_event(
        plugin_event(15, "nispor", NipartPluginEvent::QueryLogLevelReply(NipartLogLevel::Trace)),
        &mut queue,
        &roles,
        3,
    );
    assert_eq!(sent.len(), 1);
    match &sent[0].user {
        NipartUserEvent::QueryLogLevelReply(levels) => {
            assert_eq!(levels.len(), 2);
            assert_eq!(levels[0].0, "nispor");
            assert_eq!(levels[0].1, NipartLogLevel::Trace);
            assert_eq!(levels[1].0, "mozim");
            assert_eq!(levels[1].1, NipartLogLevel::Warn);
        }
        other => panic!("unexpected reply {other:?}"),
    }
}
