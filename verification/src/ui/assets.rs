//! Making sure the icon and the sound sets are installed.
//!
//! Installing is a procedure of several steps that touch the file system and
//! the network. It is written here as a state machine: each state names the
//! one thing the caller is to do, the caller reports how it went, and the
//! machine names the next thing. The paths involved are worked out here as
//! well.

use crate::paths::{assets_dir_spec, get_assets_dir, join, join_spec};
use crate::text::to_chars;
use vstd::prelude::*;

verus! {

/// Where the archive of sound sets is downloaded from.
pub const ASSETS_URL: &'static str =
    "https://github.com/cesarferreira/clickclack/raw/refs/heads/main/assets/switchtypes.zip";

/// The name of the icon, inside the program's folder.
pub const ICON_FILE: &'static str = "icon.png";

/// Where the icon lies next to the executable.
pub const BUNDLED_ICON: &'static str = "assets/icon.png";

/// The thing the caller is to do next, which is also where the procedure
/// stands.
#[derive(Clone, Copy, Debug, PartialEq, Eq, Structural)]
pub enum AssetStep {
    /// Report whether the installed icon exists.
    ProbeIcon,
    /// Look up the folder of the running executable.
    LocateExecutable,
    /// Report whether the icon next to the executable exists.
    ProbeBundledIcon,
    /// Copy the icon next to the executable to its installed place.
    CopyIcon,
    /// Report whether the folder of the sound sets exists.
    ProbeSwitchtypes,
    /// Create the program's folder.
    CreateAssetsDir,
    /// Download the archive of sound sets.
    Download,
    /// Unpack the archive into the program's folder.
    Extract,
    /// Count the entries of the folder of the sound sets.
    CountSwitchtypes,
    /// Remove the empty folder of the sound sets.
    RemoveSwitchtypes,
    /// Nothing more: everything is installed.
    Done,
    /// Nothing more: the step named here failed.
    Failed(AssetFailure),
}

/// The step of the procedure that failed.
#[derive(Clone, Copy, Debug, PartialEq, Eq, Structural)]
pub enum AssetFailure {
    LocateExecutable,
    CopyIcon,
    CreateAssetsDir,
    Download,
    Extract,
    CountSwitchtypes,
    RemoveSwitchtypes,
    /// An outcome was reported that the procedure had not asked for.
    OutOfOrder,
}

/// How the step that was asked for went.
#[derive(Clone, Copy, Debug, PartialEq, Eq, Structural)]
pub enum AssetEvent {
    /// The answer to a probe: whether the file or folder exists.
    Exists(bool),
    /// The executable was looked up: `None` if that failed, else whether it
    /// lies in a folder.
    Located(Option<bool>),
    /// Whether a step that only succeeds or fails succeeded.
    Completed(bool),
    /// The number of entries counted, or `None` if the folder could not be
    /// read.
    Counted(Option<usize>),
}

/// One step of the installation.
///
/// The icon is copied from next to the executable only if it is not yet
/// installed and there is one to copy. The sound sets are downloaded and
/// unpacked only if their folder is missing. A folder that is there but
/// empty is removed, and the procedure starts over. The first step that
/// fails ends the procedure.
pub open spec fn asset_step_spec(step: AssetStep, event: AssetEvent) -> AssetStep {
    match (step, event) {
        (AssetStep::ProbeIcon, AssetEvent::Exists(true)) => AssetStep::ProbeSwitchtypes,
        (AssetStep::ProbeIcon, AssetEvent::Exists(false)) => AssetStep::LocateExecutable,
        (AssetStep::LocateExecutable, AssetEvent::Located(None)) => AssetStep::Failed(
            AssetFailure::LocateExecutable,
        ),
        (AssetStep::LocateExecutable, AssetEvent::Located(Some(false))) => {
            AssetStep::ProbeSwitchtypes
        },
        (AssetStep::LocateExecutable, AssetEvent::Located(Some(true))) => {
            AssetStep::ProbeBundledIcon
        },
        (AssetStep::ProbeBundledIcon, AssetEvent::Exists(true)) => AssetStep::CopyIcon,
        (AssetStep::ProbeBundledIcon, AssetEvent::Exists(false)) => AssetStep::ProbeSwitchtypes,
        (AssetStep::CopyIcon, AssetEvent::Completed(true)) => AssetStep::ProbeSwitchtypes,
        (AssetStep::CopyIcon, AssetEvent::Completed(false)) => AssetStep::Failed(
            AssetFailure::CopyIcon,
        ),
        (AssetStep::ProbeSwitchtypes, AssetEvent::Exists(false)) => AssetStep::CreateAssetsDir,
        (AssetStep::ProbeSwitchtypes, AssetEvent::Exists(true)) => AssetStep::CountSwitchtypes,
        (AssetStep::CreateAssetsDir, AssetEvent::Completed(true)) => AssetStep::Download,
        (AssetStep::CreateAssetsDir, AssetEvent::Completed(false)) => AssetStep::Failed(
            AssetFailure::CreateAssetsDir,
        ),
        (AssetStep::Download, AssetEvent::Completed(true)) => AssetStep::Extract,
        (AssetStep::Download, AssetEvent::Completed(false)) => AssetStep::Failed(
            AssetFailure::Download,
        ),
        (AssetStep::Extract, AssetEvent::Completed(true)) => AssetStep::Done,
        (AssetStep::Extract, AssetEvent::Completed(false)) => AssetStep::Failed(
            AssetFailure::Extract,
        ),
        (AssetStep::CountSwitchtypes, AssetEvent::Counted(None)) => AssetStep::Failed(
            AssetFailure::CountSwitchtypes,
        ),
        (AssetStep::CountSwitchtypes, AssetEvent::Counted(Some(count))) => if count == 0 {
            AssetStep::RemoveSwitchtypes
        } else {
            AssetStep::Done
        },
        (AssetStep::RemoveSwitchtypes, AssetEvent::Completed(true)) => AssetStep::ProbeIcon,
        (AssetStep::RemoveSwitchtypes, AssetEvent::Completed(false)) => AssetStep::Failed(
            AssetFailure::RemoveSwitchtypes,
        ),
        _ => AssetStep::Failed(AssetFailure::OutOfOrder),
    }
}

/// Takes the installation one step further: given how the step that was
/// asked for went, names the next one. The procedure begins at
/// `AssetStep::ProbeIcon` and is over at `Done` or `Failed`.
pub fn ensure_assets_exist(step: AssetStep, event: AssetEvent) -> (next: AssetStep)
    ensures
        next == asset_step_spec(step, event),
{
    match (step, event) {
        (AssetStep::ProbeIcon, AssetEvent::Exists(installed)) => {
            if installed {
                AssetStep::ProbeSwitchtypes
            } else {
                AssetStep::LocateExecutable
            }
        },
        (AssetStep::LocateExecutable, AssetEvent::Located(found)) => match found {
            None => AssetStep::Failed(AssetFailure::LocateExecutable),
            Some(false) => AssetStep::ProbeSwitchtypes,
            Some(true) => AssetStep::ProbeBundledIcon,
        },
        (AssetStep::ProbeBundledIcon, AssetEvent::Exists(bundled)) => {
            if bundled {
                AssetStep::CopyIcon
            } else {
                AssetStep::ProbeSwitchtypes
            }
        },
        (AssetStep::CopyIcon, AssetEvent::Completed(done)) => {
            if done {
                AssetStep::ProbeSwitchtypes
            } else {
                AssetStep::Failed(AssetFailure::CopyIcon)
            }
        },
        (AssetStep::ProbeSwitchtypes, AssetEvent::Exists(installed)) => {
            if installed {
                AssetStep::CountSwitchtypes
            } else {
                AssetStep::CreateAssetsDir
            }
        },
        (AssetStep::CreateAssetsDir, AssetEvent::Completed(done)) => {
            if done {
                AssetStep::Download
            } else {
                AssetStep::Failed(AssetFailure::CreateAssetsDir)
            }
        },
        (AssetStep::Download, AssetEvent::Completed(done)) => {
            if done {
                AssetStep::Extract
            } else {
                AssetStep::Failed(AssetFailure::Download)
            }
        },
        (AssetStep::Extract, AssetEvent::Completed(done)) => {
            if done {
                AssetStep::Done
            } else {
                AssetStep::Failed(AssetFailure::Extract)
            }
        },
        (AssetStep::CountSwitchtypes, AssetEvent::Counted(counted)) => match counted {
            None => AssetStep::Failed(AssetFailure::CountSwitchtypes),
            Some(count) => {
                if count == 0 {
                    AssetStep::RemoveSwitchtypes
                } else {
                    AssetStep::Done
                }
            },
        },
        (AssetStep::RemoveSwitchtypes, AssetEvent::Completed(done)) => {
            if done {
                AssetStep::ProbeIcon
            } else {
                AssetStep::Failed(AssetFailure::RemoveSwitchtypes)
            }
        },
        _ => AssetStep::Failed(AssetFailure::OutOfOrder),
    }
}

/// Where one entry of the archive goes, and as what.
#[derive(Debug, PartialEq, Eq)]
pub enum ExtractTarget {
    /// The entry is a folder: create it, and every folder above it.
    Folder(String),
    /// The entry is a file: create the folders above it and write it.
    File(String),
}

/// An extraction target as plain values.
pub enum ExtractTargetView {
    Folder(Seq<char>),
    File(Seq<char>),
}

impl View for ExtractTarget {
    type V = ExtractTargetView;

    open spec fn view(&self) -> ExtractTargetView {
        match self {
            ExtractTarget::Folder(path) => ExtractTargetView::Folder(path@),
            ExtractTarget::File(path) => ExtractTargetView::File(path@),
        }
    }
}

/// Where the entry called `name` goes: below the program's folder, as a
/// folder if its name ends in `/`, else as a file.
pub open spec fn extract_target_spec(assets_dir: Seq<char>, name: Seq<char>) -> ExtractTargetView {
    let path = join_spec(assets_dir, name);
    if name.len() > 0 && name.last() == '/' {
        ExtractTargetView::Folder(path)
    } else {
        ExtractTargetView::File(path)
    }
}

/// Decides where one entry of the archive goes.
pub fn extract_target(assets_dir: &str, name: &str) -> (target: ExtractTarget)
    ensures
        target@ == extract_target_spec(assets_dir@, name@),
{
    let path = join(assets_dir, name);
    let letters = to_chars(name);
    if letters.len() > 0 && letters[letters.len() - 1] == '/' {
        ExtractTarget::Folder(path)
    } else {
        ExtractTarget::File(path)
    }
}

/// Where the icon is installed.
pub fn icon_path(config_dir: Option<&str>) -> (path: String)
    ensures
        path@ == join_spec(
            assets_dir_spec(
                match config_dir {
                    Some(dir) => Some(dir@),
                    None => None,
                },
            ),
            ICON_FILE@,
        ),
{
    let assets = get_assets_dir(config_dir);
    join(assets.as_str(), ICON_FILE)
}

/// Where the icon lies next to an executable in the folder `exe_dir`.
pub fn bundled_icon_path(exe_dir: &str) -> (path: String)
    ensures
        path@ == join_spec(exe_dir@, BUNDLED_ICON@),
{
    join(exe_dir, BUNDLED_ICON)
}

} // verus!
