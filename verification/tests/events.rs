use nipart::{
    ErrorKind, NipartError, NipartEvent, NipartEventAddress, NipartLogLevel, NipartPluginEvent,
    NipartPluginInfo, NipartRole, NipartUserEvent, DEFAULT_TIMEOUT,
};

fn plain_event(user: NipartUserEvent, plugin: NipartPluginEvent) -> NipartEvent {
    NipartEvent {
        uuid: 7,
        user,
        plugin,
        src: NipartEventAddress::User,
        dst: NipartEventAddress::Commander,
        timeout: 1000,
        postpone_millis: 0,
    }
}

#[test]
fn new_event_keeps_its_arguments() {
    let e = NipartEvent::new(
        NipartUserEvent::QueryPluginInfo,
        NipartPluginEvent::Nil,
        NipartEventAddress::User,
        NipartEventAddress::Commander,
        1234,
    );
    assert!(matches!(e.user, NipartUserEvent::QueryPluginInfo));
    assert!(matches!(e.plugin, NipartPluginEvent::Nil));
    assert!(matches!(e.src, NipartEventAddress::User));
    assert!(matches!(e.dst, NipartEventAddress::Commander));
    assert_eq!(e.timeout, 1234);
    assert_eq!(e.postpone_millis, 0);
}

#[test]
fn new_event_has_a_version_7_identifier() {
    let e = NipartEvent::new(
        NipartUserEvent::Quit,
        NipartPluginEvent::Nil,
        NipartEventAddress::User,
        NipartEventAddress::Commander,
        1,
    );
    assert_eq!((e.uuid >> 76) & 0xf, 7);
    assert_eq!((e.uuid >> 62) & 0x3, 2);
}

#[test]
fn identifiers_rise_in_order_of_creation() {
    let mut last = 0u128;
    for _ in 0..200 {
        let e = NipartEvent::new(
            NipartUserEvent::Quit,
            NipartPluginEvent::Nil,
            NipartEventAddress::User,
            NipartEventAddress::Commander,
            1,
        );
        assert!(e.uuid > last);
        last = e.uuid;
    }
}

#[test]
fn is_err_only_for_error_events() {
    let err = NipartError::new(ErrorKind::Bug, "boom".to_string());
    assert!(plain_event(NipartUserEvent::Error(err), NipartPluginEvent::Nil).is_err());
    assert!(!plain_event(NipartUserEvent::Quit, NipartPluginEvent::Nil).is_err());
    assert!(!plain_event(NipartUserEvent::Nil, NipartPluginEvent::Quit).is_err());
    assert!(!plain_event(NipartUserEvent::ApplyNetStateReply, NipartPluginEvent::Nil).is_err());
}

#[test]
fn into_result_gives_the_error_back() {
    let err = NipartError::new(ErrorKind::PluginFailure, "no luck".to_string());
    let r = plain_event(NipartUserEvent::Error(err), NipartPluginEvent::Nil).into_result();
    let e = r.err().unwrap();
    assert_eq!(e.kind, ErrorKind::PluginFailure);
    assert_eq!(e.msg, "no luck");
}

#[test]
fn into_result_gives_the_event_back() {
    let r = plain_event(NipartUserEvent::QueryLogLevel, NipartPluginEvent::Nil).into_result();
    let e = r.ok().unwrap();
    assert_eq!(e.uuid, 7);
    assert!(matches!(e.user, NipartUserEvent::QueryLogLevel));
    assert_eq!(e.timeout, 1000);
}

#[test]
fn event_from_error_goes_from_daemon_to_user() {
    let err = NipartError::new(ErrorKind::Timeout, "late".to_string());
    let e = NipartEvent::from_error(err);
    assert!(e.is_err());
    assert!(matches!(e.plugin, NipartPluginEvent::Nil));
    assert!(matches!(e.src, NipartEventAddress::Daemon));
    assert!(matches!(e.dst, NipartEventAddress::User));
    assert_eq!(e.timeout, DEFAULT_TIMEOUT);
    assert_eq!(e.timeout, 30000);
    assert_eq!(e.postpone_millis, 0);
    assert_eq!((e.uuid >> 76) & 0xf, 7);
}

#[test]
fn address_texts() {
    assert_eq!(NipartEventAddress::User.to_text(), "user");
    assert_eq!(NipartEventAddress::Unicast("nispor".to_string()).to_text(), "nispor");
    assert_eq!(NipartEventAddress::Daemon.to_text(), "daemon");
    assert_eq!(NipartEventAddress::Commander.to_text(), "commander");
    assert_eq!(NipartEventAddress::Dhcp.to_text(), "dhcp");
    assert_eq!(NipartEventAddress::Group(NipartRole::QueryAndApply).to_text(), "group:query_and_apply");
    assert_eq!(NipartEventAddress::AllPlugins.to_text(), "all_plugins");
}

#[test]
fn user_event_names() {
    assert_eq!(NipartUserEvent::Nil.name(), "none");
    assert_eq!(NipartUserEvent::Quit.name(), "quit");
    assert_eq!(
        NipartUserEvent::Error(NipartError::new(ErrorKind::Bug, String::new())).name(),
        "error"
    );
    assert_eq!(NipartUserEvent::QueryPluginInfo.name(), "query_plugin_info");
    assert_eq!(NipartUserEvent::QueryPluginInfoReply(Vec::new()).name(), "query_plugin_info_reply");
    assert_eq!(NipartUserEvent::ChangeLogLevel(NipartLogLevel::Info).name(), "change_log_level");
    assert_eq!(NipartUserEvent::QueryLogLevel.name(), "query_log_level");
    assert_eq!(NipartUserEvent::QueryLogLevelReply(Vec::new()).name(), "query_log_level_reply");
    assert_eq!(NipartUserEvent::ApplyNetStateReply.name(), "apply_netstate_reply");
    let entry = nipart::NipartLogEntry::new(NipartLogLevel::Debug, "m".to_string());
    assert_eq!(NipartUserEvent::Log(entry).name(), "log");
}

#[test]
fn event_text_without_postpone() {
    let e = NipartEvent {
        uuid: 1234567890123456789012345678901234567u128,
        user: NipartUserEvent::QueryPluginInfo,
        plugin: NipartPluginEvent::Nil,
        src: NipartEventAddress::User,
        dst: NipartEventAddress::Commander,
        timeout: 30000,
        postpone_millis: 0,
    };
    assert_eq!(
        e.to_text(),
        "1234567890123456789012345678901234567 user:query_plugin_info plugin:none src:user \
         dst:commander timeout:30000ms"
    );
}

#[test]
fn event_text_with_postpone() {
    let e = NipartEvent {
        uuid: 0,
        user: NipartUserEvent::Nil,
        plugin: NipartPluginEvent::ChangeLogLevel(NipartLogLevel::Debug),
        src: NipartEventAddress::Commander,
        dst: NipartEventAddress::AllPlugins,
        timeout: 10,
        postpone_millis: 500,
    };
    assert_eq!(
        e.to_text(),
        "0 user:none plugin:change_log_level:debug src:commander dst:all_plugins timeout:10ms \
         postpone 500ms"
    );
}

#[test]
fn error_text_and_parts() {
    let e = NipartError::new(ErrorKind::InvalidArgument, "bad".to_string());
    assert_eq!(e.kind(), ErrorKind::InvalidArgument);
    assert_eq!(e.msg(), "bad");
    assert_eq!(e.to_text(), "InvalidArgument: bad");
    assert_eq!(ErrorKind::VerificationError.name(), "VerificationError");
}

#[test]
fn plugin_info_holds_name_and_roles() {
    let info = NipartPluginInfo::new("nispor".to_string(), vec![NipartRole::Dhcp, NipartRole::Ovs]);
    assert_eq!(info.name, "nispor");
    assert!(info.has_role(NipartRole::Dhcp));
    assert!(info.has_role(NipartRole::Ovs));
    assert!(!info.has_role(NipartRole::Config));
}

#[test]
fn a_log_entry_goes_to_the_user() {
    let e = nipart::log_to_user(42, NipartLogLevel::Trace, "Received event x".to_string());
    assert_eq!(e.uuid, 42);
    assert_eq!(e.src, NipartEventAddress::Commander);
    assert_eq!(e.dst, NipartEventAddress::User);
    assert_eq!(e.plugin, NipartPluginEvent::Nil);
    assert_eq!(e.timeout, 30000);
    assert_eq!(e.postpone_millis, 0);
    match e.user {
        NipartUserEvent::Log(entry) => {
            assert_eq!(entry.level, NipartLogLevel::Trace);
            assert_eq!(entry.message, "Received event x");
        }
        other => panic!("unexpected event {other:?}"),
    }
    let entry = nipart::NipartLogEntry::new(NipartLogLevel::Info, "hello".to_string());
    let e = entry.to_event(7, NipartEventAddress::Unicast("nispor".to_string()));
    assert_eq!(e.src, NipartEventAddress::Unicast("nispor".to_string()));
    assert_eq!(e.dst, NipartEventAddress::User);
    assert!(!e.is_err());
}

#[test]
fn a_report_of_a_failure_carries_nothing_of_the_plugin_level() {
    let err = NipartError::new(ErrorKind::PluginFailure, "x".to_string());
    assert!(plain_event(NipartUserEvent::Error(err), NipartPluginEvent::Nil).reports_failure());
    let err = NipartError::new(ErrorKind::PluginFailure, "x".to_string());
    assert!(!plain_event(NipartUserEvent::Error(err), NipartPluginEvent::ApplyNetStateReply).reports_failure());
    assert!(!plain_event(NipartUserEvent::Quit, NipartPluginEvent::Nil).reports_failure());
}

#[test]
fn a_source_hands_out_identifiers_that_rise() {
    let mut ids = nipart::IdSource::new();
    assert_eq!(ids.take(10), Some(10));
    assert_eq!(ids.take(10), Some(11));
    assert_eq!(ids.take(3), Some(12));
    assert_eq!(ids.take(100), Some(100));
    assert_eq!(ids.take(u128::MAX), Some(u128::MAX));
    assert_eq!(ids.take(5), None);
    assert_eq!(ids.next(), None);

    let mut ids = nipart::IdSource::new();
    let mut last = 0u128;
    for _ in 0..100 {
        let e = NipartEvent::new_in_order(
            &mut ids,
            NipartUserEvent::Quit,
            NipartPluginEvent::Nil,
            NipartEventAddress::User,
            NipartEventAddress::Commander,
            9,
        )
        .unwrap();
        assert!(e.uuid > last);
        assert_eq!((e.uuid >> 76) & 0xf, 7);
        assert_eq!(e.timeout, 9);
        assert_eq!(e.postpone_millis, 0);
        last = e.uuid;
    }
}
