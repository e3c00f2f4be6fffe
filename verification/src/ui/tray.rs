//! The status-bar menu as data.
//!
//! The menu is a list of entries, each with a title, the name of the action
//! it sends, and a check mark. Building the list from the settings, finding
//! the entry behind an action, and carrying out an action on the settings and
//! the check marks are all decided here; drawing the menu is the caller's
//! part.

use crate::config::{Config, ConfigView, SCALE};
use crate::text::{same_text, starts_with, strip_prefix};
use vstd::prelude::*;
use vstd::string::StringExecFns;

verus! {

/// The action that switches sound on and off.
pub const TOGGLE_ACTION: &'static str = "toggleSound";

/// The action that ends the program.
pub const QUIT_ACTION: &'static str = "quit";

/// What the name of every action that selects a sound set begins with; the
/// rest of the name is the folder of the set.
pub const SWITCH_ACTION_PREFIX: &'static str = "setSwitch_";

/// How far, in thousandths, the volume may be from a menu level and still
/// count as that level.
pub const LEVEL_TOLERANCE: u32 = 10;

/// A sound set the menu offers: the name shown, and the folder it lives in.
#[derive(Debug, PartialEq, Eq)]
pub struct SwitchEntry {
    pub display_name: String,
    pub folder_name: String,
}

/// A sound set as plain values.
pub struct SwitchEntryView {
    pub display_name: Seq<char>,
    pub folder_name: Seq<char>,
}

impl View for SwitchEntry {
    type V = SwitchEntryView;

    open spec fn view(&self) -> SwitchEntryView {
        SwitchEntryView { display_name: self.display_name@, folder_name: self.folder_name@ }
    }
}

/// One line of the menu that can be chosen or serves as a heading.
#[derive(Debug, PartialEq, Eq)]
pub struct MenuItem {
    pub title: String,
    /// The name of the action the item sends; empty for a heading, which
    /// sends nothing.
    pub action: String,
    pub checked: bool,
}

/// A menu item as plain values.
pub struct MenuItemView {
    pub title: Seq<char>,
    pub action: Seq<char>,
    pub checked: bool,
}

impl View for MenuItem {
    type V = MenuItemView;

    open spec fn view(&self) -> MenuItemView {
        MenuItemView { title: self.title@, action: self.action@, checked: self.checked }
    }
}

/// One entry of the menu.
#[derive(Debug, PartialEq, Eq)]
pub enum MenuEntry {
    Item(MenuItem),
    Separator,
}

/// A menu entry as plain values.
pub enum MenuEntryView {
    Item(MenuItemView),
    Separator,
}

impl View for MenuEntry {
    type V = MenuEntryView;

    open spec fn view(&self) -> MenuEntryView {
        match self {
            MenuEntry::Item(item) => MenuEntryView::Item(item@),
            MenuEntry::Separator => MenuEntryView::Separator,
        }
    }
}

/// What the caller is to do after an action was handled.
#[derive(Clone, Copy, Debug, PartialEq, Eq, Structural)]
pub enum MenuResponse {
    /// The settings changed: write them back and redraw the check marks.
    Changed,
    /// End the program.
    Quit,
    /// The action is not one of the menu's: nothing happened.
    Unknown,
}

/// The entries of a menu as plain values.
pub open spec fn entries_view(menu: Seq<MenuEntry>) -> Seq<MenuEntryView> {
    Seq::new(menu.len(), |i: int| menu[i]@)
}

/// An item entry.
pub open spec fn item(title: Seq<char>, action: Seq<char>, checked: bool) -> MenuEntryView {
    MenuEntryView::Item(MenuItemView { title, action, checked })
}

/// Whether `volume` counts as the menu level `level`.
pub open spec fn near_level(volume: u32, level: u32) -> bool {
    -(LEVEL_TOLERANCE as int) < volume - level < LEVEL_TOLERANCE as int
}

/// The action that sets the volume to `level`, for the four levels the menu
/// offers.
pub open spec fn volume_action(level: u32) -> Seq<char> {
    if level == 250 {
        "setVolume25"@
    } else if level == 500 {
        "setVolume50"@
    } else if level == 750 {
        "setVolume75"@
    } else {
        "setVolume100"@
    }
}

/// The menu entry for one sound set: indented, sending the set's own
/// action, and checked if the set is the one in use.
pub open spec fn switch_item(entry: SwitchEntryView, current: Seq<char>) -> MenuEntryView {
    item(
        "  "@ + entry.display_name,
        SWITCH_ACTION_PREFIX@ + entry.folder_name,
        current == entry.folder_name,
    )
}

/// The menu entries for the sound sets, in the order given.
pub open spec fn switch_items(switches: Seq<SwitchEntryView>, current: Seq<char>) -> Seq<
    MenuEntryView,
> {
    Seq::new(switches.len(), |i: int| switch_item(switches[i], current))
}

/// The part of the menu above the sound sets.
pub open spec fn menu_head(config: ConfigView) -> Seq<MenuEntryView> {
    seq![
        item("Enable Sound"@, TOGGLE_ACTION@, config.enabled),
        MenuEntryView::Separator,
        item("Volume"@, ""@, false),
        item("  100%"@, "setVolume100"@, near_level(config.volume, 1000)),
        item("  75%"@, "setVolume75"@, near_level(config.volume, 750)),
        item("  50%"@, "setVolume50"@, near_level(config.volume, 500)),
        item("  25%"@, "setVolume25"@, near_level(config.volume, 250)),
        MenuEntryView::Separator,
        item("Switch Type"@, ""@, false),
    ]
}

/// The part of the menu below the sound sets.
pub open spec fn menu_tail() -> Seq<MenuEntryView> {
    seq![MenuEntryView::Separator, item("Quit"@, QUIT_ACTION@, false)]
}

/// The whole menu for the given settings and sound sets.
pub open spec fn menu_spec(config: ConfigView, switches: Seq<SwitchEntryView>) -> Seq<
    MenuEntryView,
> {
    menu_head(config) + switch_items(switches, config.switch_type) + menu_tail()
}

/// Whether `entry` is an item that sends `action`. A heading sends nothing
/// and a separator is no item, so neither is ever found.
pub open spec fn sends(entry: MenuEntryView, action: Seq<char>) -> bool {
    match entry {
        MenuEntryView::Item(item) => item.action.len() > 0 && item.action == action,
        MenuEntryView::Separator => false,
    }
}

/// The position of the first entry at or after `from` that sends `action`.
pub open spec fn find_from(menu: Seq<MenuEntryView>, action: Seq<char>, from: int) -> Option<int>
    decreases menu.len() - from,
{
    if from < 0 || from >= menu.len() {
        None
    } else if sends(menu[from], action) {
        Some(from)
    } else {
        find_from(menu, action, from + 1)
    }
}

/// `entry` with its check mark set to `checked`; a separator has none.
pub open spec fn with_check(entry: MenuEntryView, checked: bool) -> MenuEntryView {
    match entry {
        MenuEntryView::Item(item) => MenuEntryView::Item(MenuItemView { checked, ..item }),
        MenuEntryView::Separator => MenuEntryView::Separator,
    }
}

/// The menu with the check mark of the first entry that sends `action` set
/// to `checked`; unchanged if no entry sends it.
pub open spec fn set_state(menu: Seq<MenuEntryView>, action: Seq<char>, checked: bool) -> Seq<
    MenuEntryView,
> {
    match find_from(menu, action, 0) {
        Some(at) => menu.update(at, with_check(menu[at], checked)),
        None => menu,
    }
}

/// Whether `entry` selects a sound set.
pub open spec fn selects_switch(entry: MenuEntryView) -> bool {
    match entry {
        MenuEntryView::Item(item) => SWITCH_ACTION_PREFIX@.is_prefix_of(item.action),
        MenuEntryView::Separator => false,
    }
}

/// The menu with no sound set checked.
pub open spec fn without_switch_checks(menu: Seq<MenuEntryView>) -> Seq<MenuEntryView> {
    Seq::new(
        menu.len(),
        |i: int|
            if selects_switch(menu[i]) {
                with_check(menu[i], false)
            } else {
                menu[i]
            },
    )
}

/// The menu with `level` as the only volume level checked.
pub open spec fn with_volume_checked(menu: Seq<MenuEntryView>, level: u32) -> Seq<MenuEntryView> {
    let cleared = set_state(
        set_state(
            set_state(set_state(menu, "setVolume25"@, false), "setVolume50"@, false),
            "setVolume75"@,
            false,
        ),
        "setVolume100"@,
        false,
    );
    set_state(cleared, volume_action(level), true)
}

/// The volume level an action sets, if it is one of the four volume actions.
pub open spec fn volume_of_action(action: Seq<char>) -> Option<u32> {
    if action == "setVolume25"@ {
        Some(250u32)
    } else if action == "setVolume50"@ {
        Some(500u32)
    } else if action == "setVolume75"@ {
        Some(750u32)
    } else if action == "setVolume100"@ {
        Some(1000u32)
    } else {
        None
    }
}

/// What an action does to the menu and the settings, and what the caller is
/// to do afterwards.
///
/// - The toggle action flips `enabled` and shows the new state on its item.
/// - A volume action sets the volume and moves the check mark to its level.
/// - A sound-set action makes the folder named after the prefix the
///   current set, and moves the check mark to the item that sends it.
/// - The quit action changes nothing and asks the caller to end the program.
/// - Any other action changes nothing.
pub open spec fn action_spec(menu: Seq<MenuEntryView>, config: ConfigView, action: Seq<char>) -> (
    Seq<MenuEntryView>,
    ConfigView,
    MenuResponse,
) {
    if action == TOGGLE_ACTION@ {
        (
            set_state(menu, TOGGLE_ACTION@, !config.enabled),
            ConfigView { enabled: !config.enabled, ..config },
            MenuResponse::Changed,
        )
    } else if let Some(level) = volume_of_action(action) {
        (
            with_volume_checked(menu, level),
            ConfigView { volume: level, ..config },
            MenuResponse::Changed,
        )
    } else if SWITCH_ACTION_PREFIX@.is_prefix_of(action) {
        (
            set_state(without_switch_checks(menu), action, true),
            ConfigView {
                switch_type: action.skip(SWITCH_ACTION_PREFIX@.len() as int),
                ..config
            },
            MenuResponse::Changed,
        )
    } else if action == QUIT_ACTION@ {
        (menu, config, MenuResponse::Quit)
    } else {
        (menu, config, MenuResponse::Unknown)
    }
}

/// The sound sets as plain values.
pub open spec fn switches_view(switches: Seq<SwitchEntry>) -> Seq<SwitchEntryView> {
    Seq::new(switches.len(), |i: int| switches[i]@)
}

/// Builds a menu item. An item with an empty action is a heading.
pub fn create_menu_item(title: &str, action: &str, checked: bool) -> (entry: MenuItem)
    ensures
        entry@ == (MenuItemView { title: title@, action: action@, checked }),
{
    MenuItem { title: String::from_str(title), action: String::from_str(action), checked }
}

/// Appends an item to a menu.
pub fn add_menu_item(menu: &mut Vec<MenuEntry>, title: &str, action: &str, checked: bool)
    ensures
        entries_view(final(menu)@) == entries_view(old(menu)@).push(
            item(title@, action@, checked),
        ),
{
    let entry = create_menu_item(title, action, checked);
    menu.push(MenuEntry::Item(entry));
}

/// Appends a separator to a menu.
pub fn add_separator(menu: &mut Vec<MenuEntry>)
    ensures
        entries_view(final(menu)@) == entries_view(old(menu)@).push(MenuEntryView::Separator),
{
    menu.push(MenuEntry::Separator);
}

/// Whether `volume` counts as the menu level `level`.
pub fn is_near_level(volume: u32, level: u32) -> (near: bool)
    ensures
        near == near_level(volume, level),
{
    if volume >= level {
        volume - level < LEVEL_TOLERANCE
    } else {
        level - volume < LEVEL_TOLERANCE
    }
}

impl MenuItem {
    /// The action the item sends, if it sends one.
    pub fn selector(&self) -> (action: Option<&str>)
        ensures
            match action {
                Some(action) => self.action@.len() > 0 && action@ == self.action@,
                None => self.action@.len() == 0,
            },
    {
        if self.action.as_str().is_empty() {
            None
        } else {
            Some(self.action.as_str())
        }
    }
}

impl MenuEntry {
    /// Whether the entry is an item that sends `action`.
    pub fn sends(&self, action: &str) -> (found: bool)
        ensures
            found == sends(self@, action@),
    {
        match self {
            MenuEntry::Item(item) => match item.selector() {
                Some(own) => same_text(own, action),
                None => false,
            },
            MenuEntry::Separator => false,
        }
    }

    /// Whether the entry selects a sound set.
    pub fn selects_switch(&self) -> (found: bool)
        ensures
            found == selects_switch(self@),
    {
        match self {
            MenuEntry::Item(item) => starts_with(item.action.as_str(), SWITCH_ACTION_PREFIX),
            MenuEntry::Separator => false,
        }
    }

    /// A copy of the entry with its check mark set to `checked`.
    pub fn with_check(&self, checked: bool) -> (entry: MenuEntry)
        ensures
            entry@ == with_check(self@, checked),
    {
        match self {
            MenuEntry::Item(item) => MenuEntry::Item(
                MenuItem { title: item.title.clone(), action: item.action.clone(), checked },
            ),
            MenuEntry::Separator => MenuEntry::Separator,
        }
    }
}

/// The actions the menu can send, in the order they are registered: the
/// toggle, the four volume levels, one action per sound set, and quit.
pub open spec fn menu_actions_spec(switches: Seq<SwitchEntryView>) -> Seq<Seq<char>> {
    seq![TOGGLE_ACTION@, "setVolume25"@, "setVolume50"@, "setVolume75"@, "setVolume100"@]
        + Seq::new(switches.len(), |i: int| SWITCH_ACTION_PREFIX@ + switches[i].folder_name)
        + seq![QUIT_ACTION@]
}

/// Lists the actions the menu can send, for the caller to register a
/// handler for each.
pub fn menu_actions(switches: &Vec<SwitchEntry>) -> (actions: Vec<String>)
    ensures
        actions.deep_view() == menu_actions_spec(switches_view(switches@)),
{
    let ghost offered = switches_view(switches@);
    let ghost fixed = seq![
        TOGGLE_ACTION@,
        "setVolume25"@,
        "setVolume50"@,
        "setVolume75"@,
        "setVolume100"@,
    ];
    let ghost named = Seq::new(
        offered.len(),
        |i: int| SWITCH_ACTION_PREFIX@ + offered[i].folder_name,
    );
    let mut actions: Vec<String> = Vec::new();
    actions.push(String::from_str(TOGGLE_ACTION));
    actions.push(String::from_str("setVolume25"));
    actions.push(String::from_str("setVolume50"));
    actions.push(String::from_str("setVolume75"));
    actions.push(String::from_str("setVolume100"));
    let mut index: usize = 0;
    while index < switches.len()
        invariant
            index <= switches.len(),
            offered == switches_view(switches@),
            named == Seq::new(
                offered.len(),
                |i: int| SWITCH_ACTION_PREFIX@ + offered[i].folder_name,
            ),
            actions.deep_view() == fixed + named.take(index as int),
        decreases switches.len() - index,
    {
        let ghost before = actions.deep_view();
        let action = String::from_str(SWITCH_ACTION_PREFIX).concat(
            switches[index].folder_name.as_str(),
        );
        actions.push(action);
        proof {
            assert(actions.deep_view() =~= before.push(named[index as int]));
        }
        index += 1;
    }
    let ghost before = actions.deep_view();
    actions.push(String::from_str(QUIT_ACTION));
    proof {
        assert(actions.deep_view() =~= before.push(QUIT_ACTION@));
    }
    actions
}

/// The menu of the status-bar icon.
#[derive(Debug)]
pub struct TrayIcon {
    menu: Vec<MenuEntry>,
}

impl View for TrayIcon {
    type V = Seq<MenuEntryView>;

    closed spec fn view(&self) -> Seq<MenuEntryView> {
        entries_view(self.menu@)
    }
}

impl TrayIcon {
    /// Builds the menu for the given settings and sound sets: the sound
    /// toggle, the four volume levels, one item per sound set, and quit.
    pub fn new(config: &Config, switches: &Vec<SwitchEntry>) -> (tray: Self)
        ensures
            tray@ == menu_spec(config@, switches_view(switches@)),
    {
        let mut menu: Vec<MenuEntry> = Vec::new();
        add_menu_item(&mut menu, "Enable Sound", TOGGLE_ACTION, config.enabled);
        add_separator(&mut menu);
        add_menu_item(&mut menu, "Volume", "", false);
        add_menu_item(&mut menu, "  100%", "setVolume100", is_near_level(config.volume, SCALE));
        add_menu_item(&mut menu, "  75%", "setVolume75", is_near_level(config.volume, 750));
        add_menu_item(&mut menu, "  50%", "setVolume50", is_near_level(config.volume, 500));
        add_menu_item(&mut menu, "  25%", "setVolume25", is_near_level(config.volume, 250));
        add_separator(&mut menu);
        add_menu_item(&mut menu, "Switch Type", "", false);
        let ghost offered = switches_view(switches@);
        let mut index: usize = 0;
        while index < switches.len()
            invariant
                index <= switches.len(),
                offered == switches_view(switches@),
                entries_view(menu@) == menu_head(config@) + switch_items(
                    offered,
                    config@.switch_type,
                ).take(index as int),
            decreases switches.len() - index,
        {
            let entry = &switches[index];
            let title = String::from_str("  ").concat(entry.display_name.as_str());
            let action = String::from_str(SWITCH_ACTION_PREFIX).concat(
                entry.folder_name.as_str(),
            );
            let current = same_text(config.switch_type.as_str(), entry.folder_name.as_str());
            add_menu_item(&mut menu, title.as_str(), action.as_str(), current);
            proof {
                let all = switch_items(offered, config@.switch_type);
                assert(all.take(index + 1) == all.take(index as int).push(all[index as int]));
            }
            index += 1;
        }
        assert(switch_items(offered, config@.switch_type).take(index as int) == switch_items(
            offered,
            config@.switch_type,
        ));
        add_separator(&mut menu);
        add_menu_item(&mut menu, "Quit", QUIT_ACTION, false);
        TrayIcon { menu }
    }

    /// The entries of the menu, from top to bottom.
    pub fn entries(&self) -> (entries: &Vec<MenuEntry>)
        ensures
            entries_view(entries@) == self@,
    {
        &self.menu
    }

    /// The position of the first entry that sends `action`, if any does.
    pub fn get_menu_item_for_action(&self, action: &str) -> (found: Option<usize>)
        ensures
            match found {
                Some(at) => at < self@.len() && find_from(self@, action@, 0) == Some(at as int),
                None => find_from(self@, action@, 0).is_none(),
            },
    {
        let mut index: usize = 0;
        while index < self.menu.len()
            invariant
                index <= self.menu.len(),
                find_from(self@, action@, 0) == find_from(self@, action@, index as int),
            decreases self.menu.len() - index,
        {
            if self.menu[index].sends(action) {
                return Some(index);
            }
            index += 1;
        }
        None
    }

    /// Sets the check mark of the first entry that sends `action`.
    pub fn set_state(&mut self, action: &str, checked: bool)
        ensures
            final(self)@ == set_state(old(self)@, action@, checked),
    {
        match self.get_menu_item_for_action(action) {
            Some(at) => {
                let entry = self.menu[at].with_check(checked);
                self.menu[at] = entry;
            },
            None => {},
        }
    }

    /// Takes the check mark off every sound set.
    fn clear_switch_checks(&mut self)
        ensures
            final(self)@ == without_switch_checks(old(self)@),
    {
        let mut index: usize = 0;
        while index < self.menu.len()
            invariant
                index <= self.menu.len(),
                self.menu.len() == old(self).menu.len(),
                forall|i: int|
                    0 <= i < index ==> (#[trigger] self.menu@[i])@ == without_switch_checks(
                        old(self)@,
                    )[i],
                forall|i: int|
                    index <= i < self.menu.len() ==> #[trigger] self.menu@[i] == old(self).menu@[i],
            decreases self.menu.len() - index,
        {
            if self.menu[index].selects_switch() {
                let entry = self.menu[index].with_check(false);
                self.menu[index] = entry;
            }
            index += 1;
        }
    }

    /// Makes `level` the volume and the only volume level checked.
    fn handle_volume(&mut self, config: &mut Config, level: u32)
        ensures
            final(self)@ == with_volume_checked(old(self)@, level),
            final(config)@ == (ConfigView { volume: level, ..old(config)@ }),
    {
        config.volume = level;
        self.set_state("setVolume25", false);
        self.set_state("setVolume50", false);
        self.set_state("setVolume75", false);
        self.set_state("setVolume100", false);
        if level == 250 {
            self.set_state("setVolume25", true);
        } else if level == 500 {
            self.set_state("setVolume50", true);
        } else if level == 750 {
            self.set_state("setVolume75", true);
        } else {
            self.set_state("setVolume100", true);
        }
    }

    /// Carries out the action an item of the menu sent.
    ///
    /// The settings and the check marks are changed as `action_spec` says;
    /// writing the settings back, redrawing, and ending the program are left
    /// to the caller, who is told which of them is due.
    pub fn handle_action(&mut self, config: &mut Config, sel_name: &str) -> (response:
        MenuResponse)
        ensures
            (final(self)@, final(config)@, response) == action_spec(
                old(self)@,
                old(config)@,
                sel_name@,
            ),
    {
        if same_text(sel_name, TOGGLE_ACTION) {
            config.enabled = !config.enabled;
            self.set_state(TOGGLE_ACTION, config.enabled);
            return MenuResponse::Changed;
        }
        if same_text(sel_name, "setVolume25") {
            self.handle_volume(config, 250);
            return MenuResponse::Changed;
        }
        if same_text(sel_name, "setVolume50") {
            self.handle_volume(config, 500);
            return MenuResponse::Changed;
        }
        if same_text(sel_name, "setVolume75") {
            self.handle_volume(config, 750);
            return MenuResponse::Changed;
        }
        if same_text(sel_name, "setVolume100") {
            self.handle_volume(config, SCALE);
            return MenuResponse::Changed;
        }
        match strip_prefix(sel_name, SWITCH_ACTION_PREFIX) {
            Some(folder) => {
                config.switch_type = folder;
                self.clear_switch_checks();
                self.set_state(sel_name, true);
                return MenuResponse::Changed;
            },
            None => {},
        }
        if same_text(sel_name, QUIT_ACTION) {
            MenuResponse::Quit
        } else {
            MenuResponse::Unknown
        }
    }
}

} // verus!
