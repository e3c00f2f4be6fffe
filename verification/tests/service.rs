use clickclack::property_list::{to_xml, PlistValue};
use clickclack::service::{
    bundle_layout, get_app_bundle_path, icon_source, info_plist, launch_agent_plist,
    LaunchctlVerb, ServiceAction, ServiceError, ServiceEvent, ServiceManager, ServiceRun,
    APP_NAME, PLIST_LABEL,
};

fn manager() -> ServiceManager {
    ServiceManager::new(Some("/Users/me")).unwrap()
}

/// Runs a procedure against a script of outcomes and returns the actions it
/// asked for, the last of which ends it.
fn run(
    manager: &ServiceManager,
    begin: (ServiceRun, ServiceAction),
    outcomes: &[ServiceEvent],
) -> Vec<ServiceAction> {
    let (mut state, first) = begin;
    let mut actions = vec![first];
    for outcome in outcomes {
        let (next, action) = manager.advance(state, *outcome);
        state = next;
        actions.push(action);
    }
    actions
}

#[test]
fn manager_needs_a_home() {
    assert_eq!(ServiceManager::new(None).err(), Some(ServiceError::HomeUnavailable));
    assert_eq!(get_app_bundle_path(None), Err(ServiceError::HomeUnavailable));
}

#[test]
fn manager_paths() {
    assert_eq!(
        manager().plist_path(),
        "/Users/me/Library/LaunchAgents/com.clickclack.daemon.plist"
    );
    assert_eq!(
        get_app_bundle_path(Some("/Users/me")).unwrap(),
        "/Users/me/Applications/ClickClack.app"
    );
    assert_eq!(PLIST_LABEL, "com.clickclack.daemon");
    assert_eq!(APP_NAME, "ClickClack");
}

#[test]
fn launchctl_arguments() {
    assert_eq!(
        manager().launchctl_args(LaunchctlVerb::Load),
        vec!["load", "-w", "/Users/me/Library/LaunchAgents/com.clickclack.daemon.plist"]
    );
    assert_eq!(
        manager().launchctl_args(LaunchctlVerb::Unload),
        vec!["unload", "-w", "/Users/me/Library/LaunchAgents/com.clickclack.daemon.plist"]
    );
}

#[test]
fn start_installs_when_missing() {
    let manager = manager();
    let actions = run(
        &manager,
        manager.start_service(),
        &[
            ServiceEvent::PlistExists(false),
            ServiceEvent::Installed(true),
            ServiceEvent::Launchctl(Some(true)),
        ],
    );
    assert_eq!(
        actions,
        vec![
            ServiceAction::ProbePlist,
            ServiceAction::Install,
            ServiceAction::Launchctl(LaunchctlVerb::Load),
            ServiceAction::Done,
        ]
    );
}

#[test]
fn start_loads_when_installed() {
    let manager = manager();
    let actions = run(
        &manager,
        manager.start_service(),
        &[ServiceEvent::PlistExists(true), ServiceEvent::Launchctl(Some(true))],
    );
    assert_eq!(
        actions,
        vec![
            ServiceAction::ProbePlist,
            ServiceAction::Launchctl(LaunchctlVerb::Load),
            ServiceAction::Done,
        ]
    );
}

#[test]
fn start_failures() {
    let manager = manager();
    let failed_install = run(
        &manager,
        manager.start_service(),
        &[ServiceEvent::PlistExists(false), ServiceEvent::Installed(false)],
    );
    assert_eq!(failed_install.last(), Some(&ServiceAction::Fail(ServiceError::InstallFailed)));

    let not_run = run(
        &manager,
        manager.start_service(),
        &[ServiceEvent::PlistExists(true), ServiceEvent::Launchctl(None)],
    );
    assert_eq!(
        not_run.last(),
        Some(&ServiceAction::Fail(ServiceError::LaunchctlNotRun(LaunchctlVerb::Load)))
    );

    let refused = run(
        &manager,
        manager.start_service(),
        &[ServiceEvent::PlistExists(true), ServiceEvent::Launchctl(Some(false))],
    );
    assert_eq!(refused.last(), Some(&ServiceAction::Fail(ServiceError::StartFailed)));
}

#[test]
fn stop_unloads_when_installed() {
    let manager = manager();
    let actions = run(
        &manager,
        manager.stop_service(),
        &[ServiceEvent::PlistExists(true), ServiceEvent::Launchctl(Some(true))],
    );
    assert_eq!(
        actions,
        vec![
            ServiceAction::ProbePlist,
            ServiceAction::Launchctl(LaunchctlVerb::Unload),
            ServiceAction::Done,
        ]
    );
}

#[test]
fn stop_is_done_when_not_installed() {
    let manager = manager();
    let actions = run(&manager, manager.stop_service(), &[ServiceEvent::PlistExists(false)]);
    assert_eq!(actions, vec![ServiceAction::ProbePlist, ServiceAction::Done]);
}

#[test]
fn stop_failures() {
    let manager = manager();
    let not_run = run(
        &manager,
        manager.stop_service(),
        &[ServiceEvent::PlistExists(true), ServiceEvent::Launchctl(None)],
    );
    assert_eq!(
        not_run.last(),
        Some(&ServiceAction::Fail(ServiceError::LaunchctlNotRun(LaunchctlVerb::Unload)))
    );
    let refused = run(
        &manager,
        manager.stop_service(),
        &[ServiceEvent::PlistExists(true), ServiceEvent::Launchctl(Some(false))],
    );
    assert_eq!(refused.last(), Some(&ServiceAction::Fail(ServiceError::StopFailed)));
}

#[test]
fn restart_stops_then_starts() {
    let manager = manager();
    let actions = run(
        &manager,
        manager.restart_service(),
        &[
            ServiceEvent::PlistExists(true),
            ServiceEvent::Launchctl(Some(true)),
            ServiceEvent::PlistExists(true),
            ServiceEvent::Launchctl(Some(true)),
        ],
    );
    assert_eq!(
        actions,
        vec![
            ServiceAction::ProbePlist,
            ServiceAction::Launchctl(LaunchctlVerb::Unload),
            ServiceAction::ProbePlist,
            ServiceAction::Launchctl(LaunchctlVerb::Load),
            ServiceAction::Done,
        ]
    );
}

#[test]
fn restart_of_a_missing_agent_installs_it() {
    let manager = manager();
    let actions = run(
        &manager,
        manager.restart_service(),
        &[
            ServiceEvent::PlistExists(false),
            ServiceEvent::PlistExists(false),
            ServiceEvent::Installed(true),
            ServiceEvent::Launchctl(Some(true)),
        ],
    );
    assert_eq!(
        actions,
        vec![
            ServiceAction::ProbePlist,
            ServiceAction::ProbePlist,
            ServiceAction::Install,
            ServiceAction::Launchctl(LaunchctlVerb::Load),
            ServiceAction::Done,
        ]
    );
}

#[test]
fn restart_does_not_start_after_a_failed_stop() {
    let manager = manager();
    let actions = run(
        &manager,
        manager.restart_service(),
        &[ServiceEvent::PlistExists(true), ServiceEvent::Launchctl(Some(false))],
    );
    assert_eq!(
        actions,
        vec![
            ServiceAction::ProbePlist,
            ServiceAction::Launchctl(LaunchctlVerb::Unload),
            ServiceAction::Fail(ServiceError::StopFailed),
        ]
    );
}

#[test]
fn begin_states() {
    let manager = manager();
    assert_eq!(manager.start_service().0, ServiceRun::StartProbe);
    assert_eq!(manager.stop_service().0, ServiceRun::StopProbe { restart: false });
    assert_eq!(manager.restart_service().0, ServiceRun::StopProbe { restart: true });
}

#[test]
fn unexpected_outcomes_end_the_procedure() {
    let manager = manager();
    assert_eq!(
        manager.advance(ServiceRun::StartProbe, ServiceEvent::Installed(true)),
        (ServiceRun::Finished, ServiceAction::Fail(ServiceError::OutOfOrder))
    );
    assert_eq!(
        manager.advance(ServiceRun::Loading, ServiceEvent::PlistExists(true)),
        (ServiceRun::Finished, ServiceAction::Fail(ServiceError::OutOfOrder))
    );
    assert_eq!(
        manager.advance(ServiceRun::Finished, ServiceEvent::Launchctl(Some(true))),
        (ServiceRun::Finished, ServiceAction::Fail(ServiceError::OutOfOrder))
    );
    assert_eq!(
        manager.advance(ServiceRun::Unloading { restart: true }, ServiceEvent::Installed(true)),
        (ServiceRun::Finished, ServiceAction::Fail(ServiceError::OutOfOrder))
    );
}

#[test]
fn running_needs_plist_and_label_in_listing() {
    let manager = manager();
    let listing = "PID\tStatus\tLabel\n-\t0\tcom.apple.foo\n812\t0\tcom.clickclack.daemon\n";
    assert!(manager.is_service_running(true, Some(listing)));
    assert!(!manager.is_service_running(false, Some(listing)));
    assert!(!manager.is_service_running(true, None));
    assert!(!manager.is_service_running(true, Some("-\t0\tcom.apple.foo\n")));
    assert!(!manager.is_service_running(true, Some("")));
}

#[test]
fn bundle_places() {
    let layout = bundle_layout("/Users/me/Applications/ClickClack.app");
    assert_eq!(layout.bundle, "/Users/me/Applications/ClickClack.app");
    assert_eq!(layout.contents, "/Users/me/Applications/ClickClack.app/Contents");
    assert_eq!(layout.macos, "/Users/me/Applications/ClickClack.app/Contents/MacOS");
    assert_eq!(layout.resources, "/Users/me/Applications/ClickClack.app/Contents/Resources");
    assert_eq!(
        layout.executable,
        "/Users/me/Applications/ClickClack.app/Contents/MacOS/ClickClack"
    );
    assert_eq!(layout.icon, "/Users/me/Applications/ClickClack.app/Contents/Resources/icon.png");
    assert_eq!(layout.info_plist, "/Users/me/Applications/ClickClack.app/Contents/Info.plist");
    assert_eq!(icon_source(Some("/cfg")), "/cfg/clickclack/icon.png");
    assert_eq!(icon_source(None), "~/.config/clickclack/icon.png");
}

fn text(entry: &(String, PlistValue)) -> (&str, &str) {
    match &entry.1 {
        PlistValue::Text(text) => (entry.0.as_str(), text.as_str()),
        other => panic!("not a text entry: {:?}", other),
    }
}

fn flag(entry: &(String, PlistValue)) -> (&str, bool) {
    match &entry.1 {
        PlistValue::Flag(flag) => (entry.0.as_str(), *flag),
        other => panic!("not a flag entry: {:?}", other),
    }
}

#[test]
fn info_plist_entries() {
    let entries = info_plist();
    assert_eq!(entries.len(), 7);
    assert_eq!(text(&entries[0]), ("CFBundleName", "ClickClack"));
    assert_eq!(text(&entries[1]), ("CFBundleDisplayName", "ClickClack"));
    assert_eq!(text(&entries[2]), ("CFBundleIdentifier", "com.clickclack.daemon"));
    assert_eq!(text(&entries[3]), ("CFBundleExecutable", "ClickClack"));
    assert_eq!(text(&entries[4]), ("CFBundleIconFile", "icon.png"));
    assert_eq!(text(&entries[5]), ("CFBundlePackageType", "APPL"));
    assert_eq!(flag(&entries[6]), ("LSBackgroundOnly", true));
}

#[test]
fn launch_agent_entries() {
    let entries = launch_agent_plist("/Users/me/Applications/ClickClack.app", "/Users/me");
    assert_eq!(entries.len(), 6);
    assert_eq!(text(&entries[0]), ("Label", "com.clickclack.daemon"));
    assert_eq!(entries[1].0, "ProgramArguments");
    match &entries[1].1 {
        PlistValue::List(arguments) => assert_eq!(
            arguments,
            &vec![String::from("/Users/me/Applications/ClickClack.app/Contents/MacOS/ClickClack")]
        ),
        other => panic!("not a list: {:?}", other),
    }
    assert_eq!(flag(&entries[2]), ("RunAtLoad", true));
    assert_eq!(flag(&entries[3]), ("KeepAlive", true));
    assert_eq!(text(&entries[4]), ("StandardOutPath", "/Users/me/Library/Logs/clickclack.log"));
    assert_eq!(
        text(&entries[5]),
        ("StandardErrorPath", "/Users/me/Library/Logs/clickclack.error.log")
    );
}

#[test]
fn property_list_is_written_as_xml() {
    let entries = vec![
        (String::from("Label"), PlistValue::Text(String::from("a<b"))),
        (String::from("KeepAlive"), PlistValue::Flag(true)),
        (
            String::from("ProgramArguments"),
            PlistValue::List(vec![String::from("/bin/x"), String::from("-v")]),
        ),
    ];
    let xml = String::from_utf8(to_xml(&entries).unwrap()).unwrap();
    assert!(xml.starts_with("<?xml"));
    assert!(xml.contains("<plist"));
    let label = xml.find("<key>Label</key>").unwrap();
    let keep = xml.find("<key>KeepAlive</key>").unwrap();
    let program = xml.find("<key>ProgramArguments</key>").unwrap();
    assert!(label < keep && keep < program);
    assert!(xml.contains("<string>a&lt;b</string>"));
    assert!(xml.contains("<true/>"));
    assert!(xml.contains("<string>/bin/x</string>"));
    assert!(xml.contains("<string>-v</string>"));

    // What was written reads back as the same dictionary.
    let parsed = plist::Value::from_reader_xml(xml.as_bytes()).unwrap();
    let dictionary = parsed.as_dictionary().unwrap();
    assert_eq!(dictionary.len(), 3);
    assert_eq!(dictionary.get("Label").unwrap().as_string(), Some("a<b"));
    assert_eq!(dictionary.get("KeepAlive").unwrap().as_boolean(), Some(true));
    let arguments = dictionary.get("ProgramArguments").unwrap().as_array().unwrap();
    assert_eq!(arguments.len(), 2);
    assert_eq!(arguments[1].as_string(), Some("-v"));
}

#[test]
fn service_documents() {
    let manager = manager();
    let agent = manager
        .install_service("/Users/me/Applications/ClickClack.app", "/Users/me")
        .unwrap();
    let parsed = plist::Value::from_reader_xml(agent.as_slice()).unwrap();
    let dictionary = parsed.as_dictionary().unwrap();
    assert_eq!(dictionary.get("Label").unwrap().as_string(), Some("com.clickclack.daemon"));
    assert_eq!(dictionary.get("RunAtLoad").unwrap().as_boolean(), Some(true));
    let keys: Vec<&String> = dictionary.keys().collect();
    assert_eq!(
        keys,
        [
            "Label",
            "ProgramArguments",
            "RunAtLoad",
            "KeepAlive",
            "StandardOutPath",
            "StandardErrorPath"
        ]
    );

    let info = manager.info_plist_xml().unwrap();
    let parsed = plist::Value::from_reader_xml(info.as_slice()).unwrap();
    let dictionary = parsed.as_dictionary().unwrap();
    assert_eq!(dictionary.len(), 7);
    assert_eq!(dictionary.get("CFBundlePackageType").unwrap().as_string(), Some("APPL"));
    assert_eq!(dictionary.get("LSBackgroundOnly").unwrap().as_boolean(), Some(true));
}
