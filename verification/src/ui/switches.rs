//! The table of sound sets.
//!
//! The sound sets that are installed are described by a JSON document next
//! to them. Its `switches` member is an object that maps the name shown in
//! the menu to the folder of the set.

use crate::json::{json_document, member_spec, Json, JsonView};
use crate::paths::{get_switchtypes_dir, join, join_spec, switchtypes_dir_spec};
use crate::ui::tray::{switches_view, SwitchEntry, SwitchEntryView};
use vstd::prelude::*;
use vstd::string::StringExecFns;

verus! {

/// The member of the description that holds the table.
pub const SWITCHES_MEMBER: &'static str = "switches";

/// The name of the description, inside the folder of the sound sets.
pub const DESCRIPTION_FILE: &'static str = "desc.json";

/// Every member of the table names its folder by a string.
pub open spec fn all_folders_named(members: Seq<(Seq<char>, JsonView)>) -> bool {
    forall|i: int| 0 <= i < members.len() ==> (#[trigger] members[i]).1 is Text
}

/// The sound sets a table lists, in the table's order.
pub open spec fn entries_of(members: Seq<(Seq<char>, JsonView)>) -> Seq<SwitchEntryView> {
    Seq::new(
        members.len(),
        |i: int|
            SwitchEntryView { display_name: members[i].0, folder_name: members[i].1->Text_0 },
    )
}

/// The sound sets a description offers.
///
/// A description that is missing, is not JSON, or has no object called
/// `switches`, offers none. A table in which some folder is not a string is
/// broken, and the answer is `None`.
pub open spec fn switch_table_spec(document: Option<JsonView>) -> Option<Seq<SwitchEntryView>> {
    match document {
        Some(tree) => match member_spec(tree, SWITCHES_MEMBER@) {
            Some(JsonView::Object(members)) => if all_folders_named(members) {
                Some(entries_of(members))
            } else {
                None
            },
            _ => Some(Seq::empty()),
        },
        None => Some(Seq::empty()),
    }
}

/// Where the description of the sound sets is kept.
pub open spec fn description_path_spec(config_dir: Option<Seq<char>>) -> Seq<char> {
    join_spec(switchtypes_dir_spec(config_dir), DESCRIPTION_FILE@)
}

/// Where the description of the sound sets is kept, given the platform's
/// settings folder if it names one.
pub fn description_path(config_dir: Option<&str>) -> (path: String)
    ensures
        path@ == description_path_spec(
            match config_dir {
                Some(dir) => Some(dir@),
                None => None,
            },
        ),
{
    let folder = get_switchtypes_dir(config_dir);
    join(folder.as_str(), DESCRIPTION_FILE)
}

/// Lists the sound sets a parsed description offers; `document` is `None`
/// for a description that could not be parsed.
pub fn switch_table(document: Option<&Json>) -> (table: Option<Vec<SwitchEntry>>)
    ensures
        match table {
            Some(table) => switch_table_spec(
                match document {
                    Some(tree) => Some(tree@),
                    None => None,
                },
            ) == Some(switches_view(table@)),
            None => switch_table_spec(
                match document {
                    Some(tree) => Some(tree@),
                    None => None,
                },
            ).is_none(),
        },
{
    let mut table: Vec<SwitchEntry> = Vec::new();
    let tree = match document {
        Some(tree) => tree,
        None => {
            return Some(table);
        },
    };
    let members = match tree.get(SWITCHES_MEMBER) {
        Some(switches) => match switches.as_object() {
            Some(members) => {
                proof {
                    reveal_with_fuel(crate::json::json_view, 2);
                }
                members
            },
            None => {
                return Some(table);
            },
        },
        None => {
            return Some(table);
        },
    };
    let ghost listed = member_spec(tree@, SWITCHES_MEMBER@)->Some_0->Object_0;
    let mut index: usize = 0;
    while index < members.len()
        invariant
            index <= members.len(),
            document == Some(tree),
            member_spec(tree@, SWITCHES_MEMBER@) == Some(JsonView::Object(listed)),
            listed.len() == members@.len(),
            forall|i: int|
                0 <= i < members@.len() ==> #[trigger] listed[i] == (
                    members@[i].0@,
                    members@[i].1@,
                ),
            forall|i: int| 0 <= i < index ==> (#[trigger] listed[i]).1 is Text,
            switches_view(table@) == entries_of(listed).take(index as int),
        decreases members.len() - index,
    {
        let folder = match members[index].1.as_str() {
            Some(folder) => folder,
            None => {
                assert(!(listed[index as int].1 is Text));
                return None;
            },
        };
        table.push(
            SwitchEntry {
                display_name: members[index].0.clone(),
                folder_name: String::from_str(folder),
            },
        );
        proof {
            let all = entries_of(listed);
            assert(all.take(index + 1) =~= all.take(index as int).push(all[index as int]));
        }
        index += 1;
    }
    Some(table)
}

/// Lists the sound sets that the text of a description offers; `contents`
/// is `None` for a description that could not be read.
pub fn read_switch_table(contents: Option<&str>) -> (table: Option<Vec<SwitchEntry>>)
    ensures
        match table {
            Some(table) => switch_table_spec(
                match contents {
                    Some(text) => json_document(text@),
                    None => None,
                },
            ) == Some(switches_view(table@)),
            None => switch_table_spec(
                match contents {
                    Some(text) => json_document(text@),
                    None => None,
                },
            ).is_none(),
        },
{
    match contents {
        Some(text) => match Json::parse(text) {
            Some(tree) => switch_table(Some(&tree)),
            None => switch_table(None),
        },
        None => switch_table(None),
    }
}

} // verus!
