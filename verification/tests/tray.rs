use clickclack::config::Config;
use clickclack::json::Json;
use clickclack::ui::assets::{
    bundled_icon_path, ensure_assets_exist, extract_target, icon_path, AssetEvent, AssetFailure,
    AssetStep, ExtractTarget, ASSETS_URL,
};
use clickclack::ui::switches::{description_path, read_switch_table, switch_table};
use clickclack::ui::tray::{create_menu_item, is_near_level, menu_actions};
use clickclack::ui::{MenuEntry, MenuResponse, SwitchEntry, TrayIcon};

fn switches() -> Vec<SwitchEntry> {
    vec![
        SwitchEntry {
            display_name: String::from("Cherry MX Blue"),
            folder_name: String::from("mxblue"),
        },
        SwitchEntry { display_name: String::from("Cream"), folder_name: String::from("cream") },
    ]
}

/// The menu as (title, action, checked) rows; a separator is `None`.
fn rows(tray: &TrayIcon) -> Vec<Option<(String, String, bool)>> {
    tray.entries()
        .iter()
        .map(|entry| match entry {
            MenuEntry::Item(item) => Some((item.title.clone(), item.action.clone(), item.checked)),
            MenuEntry::Separator => None,
        })
        .collect()
}

fn row(title: &str, action: &str, checked: bool) -> Option<(String, String, bool)> {
    Some((String::from(title), String::from(action), checked))
}

fn checked_actions(tray: &TrayIcon) -> Vec<String> {
    rows(tray).into_iter().flatten().filter(|row| row.2).map(|row| row.1).collect()
}

#[test]
fn menu_for_default_settings() {
    let tray = TrayIcon::new(&Config::default(), &switches());
    assert_eq!(
        rows(&tray),
        vec![
            row("Enable Sound", "toggleSound", true),
            None,
            row("Volume", "", false),
            row("  100%", "setVolume100", true),
            row("  75%", "setVolume75", false),
            row("  50%", "setVolume50", false),
            row("  25%", "setVolume25", false),
            None,
            row("Switch Type", "", false),
            row("  Cherry MX Blue", "setSwitch_mxblue", true),
            row("  Cream", "setSwitch_cream", false),
            None,
            row("Quit", "quit", false),
        ]
    );
}

#[test]
fn menu_without_sound_sets() {
    let mut config = Config::default();
    config.enabled = false;
    config.volume = 500;
    let tray = TrayIcon::new(&config, &Vec::new());
    assert_eq!(
        rows(&tray),
        vec![
            row("Enable Sound", "toggleSound", false),
            None,
            row("Volume", "", false),
            row("  100%", "setVolume100", false),
            row("  75%", "setVolume75", false),
            row("  50%", "setVolume50", true),
            row("  25%", "setVolume25", false),
            None,
            row("Switch Type", "", false),
            None,
            row("Quit", "quit", false),
        ]
    );
}

#[test]
fn volume_levels_have_a_tolerance() {
    assert!(is_near_level(750, 750));
    assert!(is_near_level(741, 750));
    assert!(is_near_level(759, 750));
    assert!(!is_near_level(740, 750));
    assert!(!is_near_level(760, 750));
    assert!(is_near_level(0, 9));
    assert!(!is_near_level(0, 10));
    assert!(!is_near_level(u32::MAX, 0));

    let mut config = Config::default();
    config.volume = 333;
    let tray = TrayIcon::new(&config, &Vec::new());
    assert_eq!(checked_actions(&tray), vec!["toggleSound"]);
}

#[test]
fn headings_send_nothing() {
    let heading = create_menu_item("Volume", "", false);
    assert_eq!(heading.selector(), None);
    let item = create_menu_item("Quit", "quit", true);
    assert_eq!(item.selector(), Some("quit"));
    assert!(item.checked);
    assert_eq!(item.title, "Quit");
}

#[test]
fn finding_items_by_action() {
    let tray = TrayIcon::new(&Config::default(), &switches());
    assert_eq!(tray.get_menu_item_for_action("toggleSound"), Some(0));
    assert_eq!(tray.get_menu_item_for_action("setVolume25"), Some(6));
    assert_eq!(tray.get_menu_item_for_action("setSwitch_cream"), Some(10));
    assert_eq!(tray.get_menu_item_for_action("quit"), Some(12));
    assert_eq!(tray.get_menu_item_for_action("setSwitch_none"), None);
    // Headings and separators are never found.
    assert_eq!(tray.get_menu_item_for_action(""), None);
}

#[test]
fn finding_takes_the_first_of_two() {
    let twice = vec![
        SwitchEntry { display_name: String::from("A"), folder_name: String::from("same") },
        SwitchEntry { display_name: String::from("B"), folder_name: String::from("same") },
    ];
    let mut config = Config::default();
    let mut tray = TrayIcon::new(&config, &twice);
    assert_eq!(tray.get_menu_item_for_action("setSwitch_same"), Some(9));
    tray.handle_action(&mut config, "setSwitch_same");
    let rows = rows(&tray);
    assert_eq!(rows[9], row("  A", "setSwitch_same", true));
    assert_eq!(rows[10], row("  B", "setSwitch_same", false));
}

#[test]
fn toggle_flips_enabled_and_its_check_mark() {
    let mut config = Config::default();
    let mut tray = TrayIcon::new(&config, &switches());
    assert_eq!(tray.handle_action(&mut config, "toggleSound"), MenuResponse::Changed);
    assert!(!config.enabled);
    assert_eq!(rows(&tray)[0], row("Enable Sound", "toggleSound", false));
    assert_eq!(tray.handle_action(&mut config, "toggleSound"), MenuResponse::Changed);
    assert!(config.enabled);
    assert_eq!(rows(&tray)[0], row("Enable Sound", "toggleSound", true));
    assert_eq!(config.volume, 1000);
    assert_eq!(config.switch_type, "mxblue");
}

#[test]
fn volume_actions_set_the_level_and_move_the_check_mark() {
    let mut config = Config::default();
    let mut tray = TrayIcon::new(&config, &switches());
    for (action, level) in [
        ("setVolume25", 250),
        ("setVolume50", 500),
        ("setVolume75", 750),
        ("setVolume100", 1000),
    ] {
        assert_eq!(tray.handle_action(&mut config, action), MenuResponse::Changed);
        assert_eq!(config.volume, level);
        assert_eq!(checked_actions(&tray), vec!["toggleSound", action, "setSwitch_mxblue"]);
    }
    assert!(config.enabled);
}

#[test]
fn switch_actions_select_the_sound_set() {
    let mut config = Config::default();
    let mut tray = TrayIcon::new(&config, &switches());
    assert_eq!(tray.handle_action(&mut config, "setSwitch_cream"), MenuResponse::Changed);
    assert_eq!(config.switch_type, "cream");
    assert_eq!(checked_actions(&tray), vec!["toggleSound", "setVolume100", "setSwitch_cream"]);

    // A set the menu does not list is selected all the same; no item is checked.
    assert_eq!(tray.handle_action(&mut config, "setSwitch_topre"), MenuResponse::Changed);
    assert_eq!(config.switch_type, "topre");
    assert_eq!(checked_actions(&tray), vec!["toggleSound", "setVolume100"]);

    assert_eq!(tray.handle_action(&mut config, "setSwitch_"), MenuResponse::Changed);
    assert_eq!(config.switch_type, "");
}

#[test]
fn quit_and_unknown_actions_change_nothing() {
    let mut config = Config::default();
    let mut tray = TrayIcon::new(&config, &switches());
    let before = rows(&tray);
    assert_eq!(tray.handle_action(&mut config, "quit"), MenuResponse::Quit);
    assert_eq!(tray.handle_action(&mut config, "setVolume10"), MenuResponse::Unknown);
    assert_eq!(tray.handle_action(&mut config, ""), MenuResponse::Unknown);
    assert_eq!(tray.handle_action(&mut config, "setMenu:"), MenuResponse::Unknown);
    assert_eq!(rows(&tray), before);
    assert!(config.enabled);
    assert_eq!(config.volume, 1000);
    assert_eq!(config.switch_type, "mxblue");
}

#[test]
fn set_state_marks_one_item() {
    let mut tray = TrayIcon::new(&Config::default(), &switches());
    tray.set_state("quit", true);
    assert_eq!(rows(&tray)[12], row("Quit", "quit", true));
    tray.set_state("nothing", true);
    tray.set_state("", true);
    assert_eq!(
        checked_actions(&tray),
        vec!["toggleSound", "setVolume100", "setSwitch_mxblue", "quit"]
    );
}

#[test]
fn actions_to_register() {
    assert_eq!(
        menu_actions(&switches()),
        vec![
            "toggleSound",
            "setVolume25",
            "setVolume50",
            "setVolume75",
            "setVolume100",
            "setSwitch_mxblue",
            "setSwitch_cream",
            "quit",
        ]
    );
    assert_eq!(menu_actions(&Vec::new()).len(), 6);
}

fn table(contents: Option<&str>) -> Option<Vec<(String, String)>> {
    read_switch_table(contents).map(|entries| {
        entries.into_iter().map(|entry| (entry.display_name, entry.folder_name)).collect()
    })
}

fn pair(name: &str, folder: &str) -> (String, String) {
    (String::from(name), String::from(folder))
}

#[test]
fn switch_table_from_description() {
    let text = r#"{ "version": 2, "switches": { "Cream": "cream", "Cherry MX Blue": "mxblue" } }"#;
    assert_eq!(table(Some(text)), Some(vec![pair("Cherry MX Blue", "mxblue"), pair("Cream", "cream")]));
}

#[test]
fn switch_table_of_odd_descriptions_is_empty() {
    assert_eq!(table(None), Some(vec![]));
    assert_eq!(table(Some("")), Some(vec![]));
    assert_eq!(table(Some("not json")), Some(vec![]));
    assert_eq!(table(Some("{}")), Some(vec![]));
    assert_eq!(table(Some(r#"{"switches": ["mxblue"]}"#)), Some(vec![]));
    assert_eq!(table(Some(r#"{"switches": "mxblue"}"#)), Some(vec![]));
    assert_eq!(table(Some(r#"["switches"]"#)), Some(vec![]));
    assert_eq!(table(Some(r#"{"switches": {}}"#)), Some(vec![]));
    assert_eq!(table(Some(r#"{"Switches": {"A": "a"}}"#)), Some(vec![]));
}

#[test]
fn switch_table_with_a_folder_that_is_no_string_is_broken() {
    assert_eq!(table(Some(r#"{"switches": {"A": "a", "B": 3}}"#)), None);
    assert_eq!(table(Some(r#"{"switches": {"A": null}}"#)), None);
    assert_eq!(table(Some(r#"{"switches": {"A": {"folder": "a"}}}"#)), None);
}

#[test]
fn description_lies_with_the_sound_sets() {
    assert_eq!(description_path(Some("/cfg")), "/cfg/clickclack/switchtypes/desc.json");
    assert_eq!(description_path(None), "~/.config/clickclack/switchtypes/desc.json");
}

#[test]
fn json_documents_are_copied_faithfully() {
    let tree = Json::parse(r#"{"b": [1, -2.5, "x", null, true], "a": {"k": "v"}, "n": 1e3}"#).unwrap();
    let members = tree.as_object().unwrap();
    let names: Vec<&str> = members.iter().map(|member| member.0.as_str()).collect();
    assert_eq!(names, ["a", "b", "n"]);

    let list = match tree.get("b").unwrap() {
        Json::List(items) => items,
        other => panic!("not a list: {:?}", other),
    };
    assert_eq!(list.len(), 5);
    assert!(matches!(&list[0], Json::Number));
    assert!(matches!(&list[1], Json::Number));
    assert_eq!(list[2].as_str(), Some("x"));
    assert!(matches!(&list[3], Json::Null));
    assert!(matches!(&list[4], Json::Bool(true)));

    assert_eq!(tree.get("a").unwrap().get("k").unwrap().as_str(), Some("v"));
    assert!(tree.get("a").unwrap().get("missing").is_none());
    assert!(tree.get("missing").is_none());
    assert!(list[0].get("a").is_none());
    assert!(list[0].as_object().is_none());
    assert!(tree.as_str().is_none());

    assert!(Json::parse("{").is_none());
    assert!(Json::parse("").is_none());
    assert!(matches!(Json::parse("false"), Some(Json::Bool(false))));
    assert_eq!(Json::parse(r#""é""#).unwrap().as_str(), Some("é"));
}

#[test]
fn switch_table_of_a_parsed_document() {
    let tree = Json::parse(r#"{"switches": {"Z": "z", "A": "a"}}"#).unwrap();
    let entries = switch_table(Some(&tree)).unwrap();
    assert_eq!(entries.len(), 2);
    assert_eq!(entries[0].display_name, "A");
    assert_eq!(entries[0].folder_name, "a");
    assert_eq!(entries[1].display_name, "Z");
    assert!(switch_table(None).unwrap().is_empty());
}

/// Runs the installation against a script of outcomes and returns the steps
/// it asked for.
fn install(outcomes: &[AssetEvent]) -> Vec<AssetStep> {
    let mut step = AssetStep::ProbeIcon;
    let mut steps = vec![step];
    for outcome in outcomes {
        step = ensure_assets_exist(step, *outcome);
        steps.push(step);
    }
    steps
}

#[test]
fn assets_fresh_install() {
    assert_eq!(
        install(&[
            AssetEvent::Exists(false),
            AssetEvent::Located(Some(true)),
            AssetEvent::Exists(true),
            AssetEvent::Completed(true),
            AssetEvent::Exists(false),
            AssetEvent::Completed(true),
            AssetEvent::Completed(true),
            AssetEvent::Completed(true),
        ]),
        vec![
            AssetStep::ProbeIcon,
            AssetStep::LocateExecutable,
            AssetStep::ProbeBundledIcon,
            AssetStep::CopyIcon,
            AssetStep::ProbeSwitchtypes,
            AssetStep::CreateAssetsDir,
            AssetStep::Download,
            AssetStep::Extract,
            AssetStep::Done,
        ]
    );
}

#[test]
fn assets_already_installed() {
    assert_eq!(
        install(&[
            AssetEvent::Exists(true),
            AssetEvent::Exists(true),
            AssetEvent::Counted(Some(3)),
        ]),
        vec![
            AssetStep::ProbeIcon,
            AssetStep::ProbeSwitchtypes,
            AssetStep::CountSwitchtypes,
            AssetStep::Done,
        ]
    );
}

#[test]
fn assets_empty_folder_is_removed_and_the_procedure_starts_over() {
    assert_eq!(
        install(&[
            AssetEvent::Exists(true),
            AssetEvent::Exists(true),
            AssetEvent::Counted(Some(0)),
            AssetEvent::Completed(true),
            AssetEvent::Exists(true),
            AssetEvent::Exists(false),
        ]),
        vec![
            AssetStep::ProbeIcon,
            AssetStep::ProbeSwitchtypes,
            AssetStep::CountSwitchtypes,
            AssetStep::RemoveSwitchtypes,
            AssetStep::ProbeIcon,
            AssetStep::ProbeSwitchtypes,
            AssetStep::CreateAssetsDir,
        ]
    );
}

#[test]
fn assets_icon_is_skipped_when_there_is_none_to_copy() {
    assert_eq!(
        install(&[AssetEvent::Exists(false), AssetEvent::Located(Some(false))]).last(),
        Some(&AssetStep::ProbeSwitchtypes)
    );
    assert_eq!(
        install(&[
            AssetEvent::Exists(false),
            AssetEvent::Located(Some(true)),
            AssetEvent::Exists(false)
        ])
        .last(),
        Some(&AssetStep::ProbeSwitchtypes)
    );
}

#[test]
fn assets_failures() {
    let cases: [(&[AssetEvent], AssetFailure); 7] = [
        (&[AssetEvent::Exists(false), AssetEvent::Located(None)], AssetFailure::LocateExecutable),
        (
            &[
                AssetEvent::Exists(false),
                AssetEvent::Located(Some(true)),
                AssetEvent::Exists(true),
                AssetEvent::Completed(false),
            ],
            AssetFailure::CopyIcon,
        ),
        (
            &[AssetEvent::Exists(true), AssetEvent::Exists(false), AssetEvent::Completed(false)],
            AssetFailure::CreateAssetsDir,
        ),
        (
            &[
                AssetEvent::Exists(true),
                AssetEvent::Exists(false),
                AssetEvent::Completed(true),
                AssetEvent::Completed(false),
            ],
            AssetFailure::Download,
        ),
        (
            &[
                AssetEvent::Exists(true),
                AssetEvent::Exists(false),
                AssetEvent::Completed(true),
                AssetEvent::Completed(true),
                AssetEvent::Completed(false),
            ],
            AssetFailure::Extract,
        ),
        (
            &[AssetEvent::Exists(true), AssetEvent::Exists(true), AssetEvent::Counted(None)],
            AssetFailure::CountSwitchtypes,
        ),
        (
            &[
                AssetEvent::Exists(true),
                AssetEvent::Exists(true),
                AssetEvent::Counted(Some(0)),
                AssetEvent::Completed(false),
            ],
            AssetFailure::RemoveSwitchtypes,
        ),
    ];
    for (outcomes, failure) in cases {
        assert_eq!(install(outcomes).last(), Some(&AssetStep::Failed(failure)));
    }
}

#[test]
fn assets_unexpected_outcomes() {
    assert_eq!(
        ensure_assets_exist(AssetStep::ProbeIcon, AssetEvent::Completed(true)),
        AssetStep::Failed(AssetFailure::OutOfOrder)
    );
    assert_eq!(
        ensure_assets_exist(AssetStep::Done, AssetEvent::Exists(true)),
        AssetStep::Failed(AssetFailure::OutOfOrder)
    );
    assert_eq!(
        ensure_assets_exist(AssetStep::Failed(AssetFailure::Download), AssetEvent::Completed(true)),
        AssetStep::Failed(AssetFailure::OutOfOrder)
    );
    assert_eq!(
        ensure_assets_exist(AssetStep::Download, AssetEvent::Counted(Some(1))),
        AssetStep::Failed(AssetFailure::OutOfOrder)
    );
}

fn target(assets_dir: &str, name: &str) -> (bool, String) {
    match extract_target(assets_dir, name) {
        ExtractTarget::Folder(path) => (true, path),
        ExtractTarget::File(path) => (false, path),
    }
}

#[test]
fn archive_entries_go_below_the_assets_folder() {
    assert_eq!(
        target("/cfg/clickclack", "switchtypes/"),
        (true, String::from("/cfg/clickclack/switchtypes/"))
    );
    assert_eq!(
        target("/cfg/clickclack", "switchtypes/mxblue/press/GENERIC_R0.mp3"),
        (false, String::from("/cfg/clickclack/switchtypes/mxblue/press/GENERIC_R0.mp3"))
    );
    assert_eq!(target("/cfg/clickclack", ""), (false, String::from("/cfg/clickclack/")));
    assert_eq!(target("/cfg/clickclack", "/"), (true, String::from("/")));
    assert_eq!(target("/cfg/clickclack", "/abs/file"), (false, String::from("/abs/file")));
}

#[test]
fn asset_places() {
    assert_eq!(icon_path(Some("/cfg")), "/cfg/clickclack/icon.png");
    assert_eq!(icon_path(None), "~/.config/clickclack/icon.png");
    assert_eq!(bundled_icon_path("/opt/app/bin"), "/opt/app/bin/assets/icon.png");
    assert!(ASSETS_URL.starts_with("https://"));
    assert!(ASSETS_URL.ends_with("/switchtypes.zip"));
}
