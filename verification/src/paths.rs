//! Where the program keeps its files.
//!
//! Paths are strings with `/` between their parts. `join` extends a path the
//! way a Unix shell user expects: an absolute addition replaces what was
//! there, a relative one is appended with exactly one separator in between.

use vstd::prelude::*;
use vstd::string::{StrSliceExecFns, StringExecFns};

verus! {

/// The folder settings are looked for when the platform names none.
pub const FALLBACK_CONFIG_DIR: &'static str = "~/.config";

/// `base` extended by `rest`.
pub open spec fn join_spec(base: Seq<char>, rest: Seq<char>) -> Seq<char> {
    if rest.len() > 0 && rest[0] == '/' {
        rest
    } else if base.len() == 0 || base.last() == '/' {
        base + rest
    } else {
        base + seq!['/'] + rest
    }
}

/// The program's own folder below the platform's settings folder.
pub open spec fn assets_dir_spec(config_dir: Option<Seq<char>>) -> Seq<char> {
    let root = match config_dir {
        Some(dir) => dir,
        None => FALLBACK_CONFIG_DIR@,
    };
    join_spec(root, "clickclack"@)
}

/// The folder that holds one folder per sound set.
pub open spec fn switchtypes_dir_spec(config_dir: Option<Seq<char>>) -> Seq<char> {
    join_spec(assets_dir_spec(config_dir), "switchtypes"@)
}

/// The settings file below the user's home folder.
pub open spec fn config_path_spec(home: Seq<char>) -> Seq<char> {
    join_spec(home, ".config/clickclack/config.toml"@)
}

/// Extends `base` by `rest`.
pub fn join(base: &str, rest: &str) -> (path: String)
    ensures
        path@ == join_spec(base@, rest@),
{
    let rest_len = rest.unicode_len();
    if rest_len > 0 && rest.get_char(0) == '/' {
        return String::from_str(rest);
    }
    let base_len = base.unicode_len();
    if base_len == 0 || base.get_char(base_len - 1) == '/' {
        String::from_str(base).concat(rest)
    } else {
        proof {
            reveal_strlit("/");
        }
        String::from_str(base).concat("/").concat(rest)
    }
}

/// The program's own folder below the platform's settings folder, or below
/// `~/.config` when the platform names none.
pub fn get_assets_dir(config_dir: Option<&str>) -> (path: String)
    ensures
        path@ == assets_dir_spec(
            match config_dir {
                Some(dir) => Some(dir@),
                None => None,
            },
        ),
{
    match config_dir {
        Some(dir) => join(dir, "clickclack"),
        None => join(FALLBACK_CONFIG_DIR, "clickclack"),
    }
}

/// The folder that holds one folder per sound set.
pub fn get_switchtypes_dir(config_dir: Option<&str>) -> (path: String)
    ensures
        path@ == switchtypes_dir_spec(
            match config_dir {
                Some(dir) => Some(dir@),
                None => None,
            },
        ),
{
    let assets = get_assets_dir(config_dir);
    join(assets.as_str(), "switchtypes")
}

/// The settings file below the user's home folder.
pub fn get_config_path(home: &str) -> (path: String)
    ensures
        path@ == config_path_spec(home@),
{
    join(home, ".config/clickclack/config.toml")
}

} // verus!
