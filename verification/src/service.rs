//! Running the program as a per-user launch agent.
//!
//! Starting, stopping and restarting the agent are procedures of a few
//! steps, each of which needs the outside world: a look at the file system,
//! an installation, a run of `launchctl`. The procedures are written here as
//! a state machine. The caller performs the action the machine asks for and
//! reports how it went; the machine decides what comes next and when the
//! procedure is over.

use crate::paths::{join, join_spec, FALLBACK_CONFIG_DIR};
use crate::property_list::{plist_view, plist_xml, to_xml, PlistValue, PlistValueView};
use crate::text::{contains, occurs_in};
use vstd::prelude::*;
use vstd::string::StringExecFns;

verus! {

/// The label the launch agent is registered under.
pub const PLIST_LABEL: &'static str = "com.clickclack.daemon";

/// The name of the application bundle and of the executable inside it.
pub const APP_NAME: &'static str = "ClickClack";

/// What `launchctl` is asked to do with the agent's property list.
#[derive(Clone, Copy, Debug, PartialEq, Eq, Structural)]
pub enum LaunchctlVerb {
    Load,
    Unload,
}

/// Why a service procedure failed.
#[derive(Clone, Copy, Debug, PartialEq, Eq, Structural)]
pub enum ServiceError {
    /// The user's home folder is not known.
    HomeUnavailable,
    /// The application bundle or the property list could not be written.
    InstallFailed,
    /// `launchctl` could not be executed at all.
    LaunchctlNotRun(LaunchctlVerb),
    /// `launchctl load` ran and reported failure.
    StartFailed,
    /// `launchctl unload` ran and reported failure.
    StopFailed,
    /// An outcome was reported that the procedure had not asked for.
    OutOfOrder,
}

/// Where a service procedure stands.
#[derive(Clone, Copy, Debug, PartialEq, Eq, Structural)]
pub enum ServiceRun {
    /// Stopping: waiting to hear whether the agent is installed.
    /// `restart` tells whether a start follows the stop.
    StopProbe { restart: bool },
    /// Stopping: waiting for `launchctl unload`.
    Unloading { restart: bool },
    /// Starting: waiting to hear whether the agent is installed.
    StartProbe,
    /// Starting: waiting for the installation.
    Installing,
    /// Starting: waiting for `launchctl load`.
    Loading,
    /// The procedure is over.
    Finished,
}

/// What the caller is to do next.
#[derive(Clone, Copy, Debug, PartialEq, Eq, Structural)]
pub enum ServiceAction {
    /// Report whether the agent's property list exists.
    ProbePlist,
    /// Install the application bundle and the property list.
    Install,
    /// Run `launchctl` with the arguments for this verb.
    Launchctl(LaunchctlVerb),
    /// Nothing more: the procedure succeeded.
    Done,
    /// Nothing more: the procedure failed.
    Fail(ServiceError),
}

/// How the action that was asked for went.
#[derive(Clone, Copy, Debug, PartialEq, Eq, Structural)]
pub enum ServiceEvent {
    /// Whether the agent's property list exists.
    PlistExists(bool),
    /// Whether the installation succeeded.
    Installed(bool),
    /// How `launchctl` ended: `None` if it could not be executed, else
    /// whether it reported success.
    Launchctl(Option<bool>),
}

/// What follows a finished stop: the start, if this is a restart.
pub open spec fn after_stop(restart: bool) -> (ServiceRun, ServiceAction) {
    if restart {
        (ServiceRun::StartProbe, ServiceAction::ProbePlist)
    } else {
        (ServiceRun::Finished, ServiceAction::Done)
    }
}

/// A procedure that ends in failure.
pub open spec fn failed(error: ServiceError) -> (ServiceRun, ServiceAction) {
    (ServiceRun::Finished, ServiceAction::Fail(error))
}

/// One step of a service procedure: where it stands after `event`, and what
/// the caller is to do next.
///
/// Stopping unloads the agent if it is installed and is done at once if it
/// is not. Starting installs the agent first if it is not installed, then
/// loads it. The first failure ends the procedure.
pub open spec fn step_spec(run: ServiceRun, event: ServiceEvent) -> (ServiceRun, ServiceAction) {
    match (run, event) {
        (ServiceRun::StopProbe { restart }, ServiceEvent::PlistExists(true)) => (
            ServiceRun::Unloading { restart },
            ServiceAction::Launchctl(LaunchctlVerb::Unload),
        ),
        (ServiceRun::StopProbe { restart }, ServiceEvent::PlistExists(false)) => after_stop(
            restart,
        ),
        (ServiceRun::Unloading { restart }, ServiceEvent::Launchctl(None)) => failed(
            ServiceError::LaunchctlNotRun(LaunchctlVerb::Unload),
        ),
        (ServiceRun::Unloading { restart }, ServiceEvent::Launchctl(Some(false))) => failed(
            ServiceError::StopFailed,
        ),
        (ServiceRun::Unloading { restart }, ServiceEvent::Launchctl(Some(true))) => after_stop(
            restart,
        ),
        (ServiceRun::StartProbe, ServiceEvent::PlistExists(false)) => (
            ServiceRun::Installing,
            ServiceAction::Install,
        ),
        (ServiceRun::StartProbe, ServiceEvent::PlistExists(true)) => (
            ServiceRun::Loading,
            ServiceAction::Launchctl(LaunchctlVerb::Load),
        ),
        (ServiceRun::Installing, ServiceEvent::Installed(true)) => (
            ServiceRun::Loading,
            ServiceAction::Launchctl(LaunchctlVerb::Load),
        ),
        (ServiceRun::Installing, ServiceEvent::Installed(false)) => failed(
            ServiceError::InstallFailed,
        ),
        (ServiceRun::Loading, ServiceEvent::Launchctl(None)) => failed(
            ServiceError::LaunchctlNotRun(LaunchctlVerb::Load),
        ),
        (ServiceRun::Loading, ServiceEvent::Launchctl(Some(false))) => failed(
            ServiceError::StartFailed,
        ),
        (ServiceRun::Loading, ServiceEvent::Launchctl(Some(true))) => (
            ServiceRun::Finished,
            ServiceAction::Done,
        ),
        _ => failed(ServiceError::OutOfOrder),
    }
}

/// How many outcomes a procedure can still take in before it is over.
pub open spec fn steps_left(run: ServiceRun) -> nat {
    match run {
        ServiceRun::StopProbe { restart } => if restart {
            5
        } else {
            2
        },
        ServiceRun::Unloading { restart } => if restart {
            4
        } else {
            1
        },
        ServiceRun::StartProbe => 3,
        ServiceRun::Installing => 2,
        ServiceRun::Loading => 1,
        ServiceRun::Finished => 0,
    }
}

/// Every procedure comes to an end: each outcome brings it closer to being
/// finished, and once it asks for nothing more, it is finished.
pub proof fn law_procedures_end(run: ServiceRun, event: ServiceEvent)
    ensures
        run != ServiceRun::Finished ==> steps_left(step_spec(run, event).0) < steps_left(run),
        step_spec(run, event).1 is Done || step_spec(run, event).1 is Fail <==> step_spec(
            run,
            event,
        ).0 == ServiceRun::Finished,
{
}

/// The same point of a stop, but within a restart.
pub open spec fn within_restart(run: ServiceRun) -> ServiceRun {
    match run {
        ServiceRun::StopProbe { restart } => ServiceRun::StopProbe { restart: true },
        ServiceRun::Unloading { restart } => ServiceRun::Unloading { restart: true },
        other => other,
    }
}

/// A restart is a stop followed by a start: while the stop lasts, a restart
/// asks for exactly what a plain stop asks for; where the stop fails, the
/// restart fails in the same way; and where the stop is done, the restart
/// goes on as a plain start begins.
pub proof fn law_restart_is_stop_then_start(run: ServiceRun, event: ServiceEvent)
    requires
        run == (ServiceRun::StopProbe { restart: false }) || run == (ServiceRun::Unloading {
            restart: false,
        }),
    ensures
        match step_spec(run, event).1 {
            ServiceAction::Done => step_spec(within_restart(run), event) == (
                ServiceRun::StartProbe,
                ServiceAction::ProbePlist,
            ),
            ServiceAction::Fail(error) => step_spec(within_restart(run), event) == failed(
                error,
            ),
            action => step_spec(within_restart(run), event) == (
                within_restart(step_spec(run, event).0),
                action,
            ),
        },
{
}

/// The places of an application bundle.
#[derive(Debug, PartialEq, Eq)]
pub struct BundleLayout {
    /// The bundle itself.
    pub bundle: String,
    pub contents: String,
    pub macos: String,
    pub resources: String,
    /// The executable inside the bundle.
    pub executable: String,
    /// The icon inside the bundle.
    pub icon: String,
    /// The bundle's own property list.
    pub info_plist: String,
}

/// A bundle layout as plain values.
pub struct BundleLayoutView {
    pub bundle: Seq<char>,
    pub contents: Seq<char>,
    pub macos: Seq<char>,
    pub resources: Seq<char>,
    pub executable: Seq<char>,
    pub icon: Seq<char>,
    pub info_plist: Seq<char>,
}

impl View for BundleLayout {
    type V = BundleLayoutView;

    open spec fn view(&self) -> BundleLayoutView {
        BundleLayoutView {
            bundle: self.bundle@,
            contents: self.contents@,
            macos: self.macos@,
            resources: self.resources@,
            executable: self.executable@,
            icon: self.icon@,
            info_plist: self.info_plist@,
        }
    }
}

/// The application bundle of the user whose home is `home`.
pub open spec fn app_bundle_path_spec(home: Seq<char>) -> Seq<char> {
    join_spec(join_spec(home, "Applications"@), APP_NAME@ + ".app"@)
}

/// The places of the application bundle at `bundle`.
pub open spec fn bundle_layout_spec(bundle: Seq<char>) -> BundleLayoutView {
    let contents = join_spec(bundle, "Contents"@);
    let macos = join_spec(contents, "MacOS"@);
    let resources = join_spec(contents, "Resources"@);
    BundleLayoutView {
        bundle,
        contents,
        macos,
        resources,
        executable: join_spec(macos, APP_NAME@),
        icon: join_spec(resources, "icon.png"@),
        info_plist: join_spec(contents, "Info.plist"@),
    }
}

/// A named string of a property list.
pub open spec fn text_entry(name: Seq<char>, text: Seq<char>) -> (Seq<char>, PlistValueView) {
    (name, PlistValueView::Text(text))
}

/// A named boolean of a property list.
pub open spec fn flag_entry(name: Seq<char>, flag: bool) -> (Seq<char>, PlistValueView) {
    (name, PlistValueView::Flag(flag))
}

/// The property list of the application bundle: a background application
/// called `ClickClack`, registered under the agent's label.
pub open spec fn info_plist_spec() -> Seq<(Seq<char>, PlistValueView)> {
    seq![
        text_entry("CFBundleName"@, APP_NAME@),
        text_entry("CFBundleDisplayName"@, APP_NAME@),
        text_entry("CFBundleIdentifier"@, PLIST_LABEL@),
        text_entry("CFBundleExecutable"@, APP_NAME@),
        text_entry("CFBundleIconFile"@, "icon.png"@),
        text_entry("CFBundlePackageType"@, "APPL"@),
        flag_entry("LSBackgroundOnly"@, true),
    ]
}

/// The property list of the launch agent: run the bundle's executable at
/// login, keep it alive, and log below the user's home.
pub open spec fn launch_agent_plist_spec(bundle: Seq<char>, home: Seq<char>) -> Seq<
    (Seq<char>, PlistValueView),
> {
    seq![
        text_entry("Label"@, PLIST_LABEL@),
        ("ProgramArguments"@, PlistValueView::List(seq![bundle_layout_spec(bundle).executable])),
        flag_entry("RunAtLoad"@, true),
        flag_entry("KeepAlive"@, true),
        text_entry("StandardOutPath"@, home + "/Library/Logs/clickclack.log"@),
        text_entry("StandardErrorPath"@, home + "/Library/Logs/clickclack.error.log"@),
    ]
}

/// Where the icon is copied into the bundle from.
pub open spec fn icon_source_spec(config_dir: Option<Seq<char>>) -> Seq<char> {
    join_spec(
        match config_dir {
            Some(dir) => dir,
            None => FALLBACK_CONFIG_DIR@,
        },
        "clickclack/icon.png"@,
    )
}

/// The application bundle of the user whose home folder is `home`; `None`
/// stands for a home folder that is not known, which is an error.
pub fn get_app_bundle_path(home: Option<&str>) -> (path: Result<String, ServiceError>)
    ensures
        match home {
            None => path == Err::<String, ServiceError>(ServiceError::HomeUnavailable),
            Some(home) => path is Ok && path->Ok_0@ == app_bundle_path_spec(home@),
        },
{
    match home {
        None => Err(ServiceError::HomeUnavailable),
        Some(home) => {
            let applications = join(home, "Applications");
            let name = String::from_str(APP_NAME).concat(".app");
            Ok(join(applications.as_str(), name.as_str()))
        },
    }
}

/// The places of the application bundle at `bundle`.
pub fn bundle_layout(bundle: &str) -> (layout: BundleLayout)
    ensures
        layout@ == bundle_layout_spec(bundle@),
{
    let contents = join(bundle, "Contents");
    let macos = join(contents.as_str(), "MacOS");
    let resources = join(contents.as_str(), "Resources");
    let executable = join(macos.as_str(), APP_NAME);
    let icon = join(resources.as_str(), "icon.png");
    let info_plist = join(contents.as_str(), "Info.plist");
    BundleLayout {
        bundle: String::from_str(bundle),
        contents,
        macos,
        resources,
        executable,
        icon,
        info_plist,
    }
}

/// Where the icon is copied into the bundle from, given the platform's
/// settings folder if it names one.
pub fn icon_source(config_dir: Option<&str>) -> (path: String)
    ensures
        path@ == icon_source_spec(
            match config_dir {
                Some(dir) => Some(dir@),
                None => None,
            },
        ),
{
    match config_dir {
        Some(dir) => join(dir, "clickclack/icon.png"),
        None => join(FALLBACK_CONFIG_DIR, "clickclack/icon.png"),
    }
}

fn text_value(name: &str, text: &str) -> (entry: (String, PlistValue))
    ensures
        (entry.0@, entry.1@) == text_entry(name@, text@),
{
    (String::from_str(name), PlistValue::Text(String::from_str(text)))
}

fn flag_value(name: &str, flag: bool) -> (entry: (String, PlistValue))
    ensures
        (entry.0@, entry.1@) == flag_entry(name@, flag),
{
    (String::from_str(name), PlistValue::Flag(flag))
}

/// The entries of the application bundle's property list.
pub fn info_plist() -> (entries: Vec<(String, PlistValue)>)
    ensures
        plist_view(entries@) == info_plist_spec(),
{
    let mut entries: Vec<(String, PlistValue)> = Vec::new();
    entries.push(text_value("CFBundleName", APP_NAME));
    entries.push(text_value("CFBundleDisplayName", APP_NAME));
    entries.push(text_value("CFBundleIdentifier", PLIST_LABEL));
    entries.push(text_value("CFBundleExecutable", APP_NAME));
    entries.push(text_value("CFBundleIconFile", "icon.png"));
    entries.push(text_value("CFBundlePackageType", "APPL"));
    entries.push(flag_value("LSBackgroundOnly", true));
    entries
}

/// The entries of the launch agent's property list, for the bundle at
/// `bundle` and the user whose home folder is `home`.
pub fn launch_agent_plist(bundle: &str, home: &str) -> (entries: Vec<(String, PlistValue)>)
    ensures
        plist_view(entries@) == launch_agent_plist_spec(bundle@, home@),
{
    let layout = bundle_layout(bundle);
    let mut program: Vec<String> = Vec::new();
    program.push(layout.executable);
    assert(program.deep_view() =~= seq![bundle_layout_spec(bundle@).executable]);
    let out_log = String::from_str(home).concat("/Library/Logs/clickclack.log");
    let error_log = String::from_str(home).concat("/Library/Logs/clickclack.error.log");
    let mut entries: Vec<(String, PlistValue)> = Vec::new();
    entries.push(text_value("Label", PLIST_LABEL));
    entries.push((String::from_str("ProgramArguments"), PlistValue::List(program)));
    entries.push(flag_value("RunAtLoad", true));
    entries.push(flag_value("KeepAlive", true));
    entries.push(text_value("StandardOutPath", out_log.as_str()));
    entries.push(text_value("StandardErrorPath", error_log.as_str()));
    entries
}

/// The launch agent of one user.
#[derive(Debug)]
pub struct ServiceManager {
    plist_path: String,
}

impl View for ServiceManager {
    type V = Seq<char>;

    /// The path of the agent's property list.
    closed spec fn view(&self) -> Seq<char> {
        self.plist_path@
    }
}

/// The property list of the launch agent of the user whose home is `home`.
pub open spec fn plist_path_spec(home: Seq<char>) -> Seq<char> {
    join_spec(join_spec(home, "Library/LaunchAgents"@), PLIST_LABEL@ + ".plist"@)
}

/// The arguments `launchctl` is run with.
pub open spec fn launchctl_args_spec(verb: LaunchctlVerb, plist_path: Seq<char>) -> Seq<Seq<char>> {
    seq![
        match verb {
            LaunchctlVerb::Load => "load"@,
            LaunchctlVerb::Unload => "unload"@,
        },
        "-w"@,
        plist_path,
    ]
}

impl ServiceManager {
    /// The manager for the user whose home folder is `home`; `None` stands
    /// for a home folder that is not known, which is an error.
    pub fn new(home: Option<&str>) -> (manager: Result<Self, ServiceError>)
        ensures
            match home {
                None => manager == Err::<Self, ServiceError>(ServiceError::HomeUnavailable),
                Some(home) => manager is Ok && manager->Ok_0@ == plist_path_spec(home@),
            },
    {
        match home {
            None => Err(ServiceError::HomeUnavailable),
            Some(home) => {
                let agents = join(home, "Library/LaunchAgents");
                let file = String::from_str(PLIST_LABEL).concat(".plist");
                Ok(ServiceManager { plist_path: join(agents.as_str(), file.as_str()) })
            },
        }
    }

    /// The path of the agent's property list.
    pub fn plist_path(&self) -> (path: &str)
        ensures
            path@ == self@,
    {
        self.plist_path.as_str()
    }

    /// The arguments to run `launchctl` with for `verb`.
    pub fn launchctl_args(&self, verb: LaunchctlVerb) -> (args: Vec<String>)
        ensures
            args.deep_view() == launchctl_args_spec(verb, self@),
    {
        let mut args: Vec<String> = Vec::new();
        match verb {
            LaunchctlVerb::Load => args.push(String::from_str("load")),
            LaunchctlVerb::Unload => args.push(String::from_str("unload")),
        }
        args.push(String::from_str("-w"));
        args.push(self.plist_path.clone());
        args
    }

    /// The launch agent's property list as XML, ready to be written to
    /// `plist_path`; `None` if it could not be written out.
    pub fn install_service(&self, bundle: &str, home: &str) -> (document: Option<Vec<u8>>)
        ensures
            match document {
                Some(bytes) => plist_xml(launch_agent_plist_spec(bundle@, home@)) == Some(bytes@),
                None => plist_xml(launch_agent_plist_spec(bundle@, home@)).is_none(),
            },
    {
        let entries = launch_agent_plist(bundle, home);
        to_xml(&entries)
    }

    /// The application bundle's property list as XML; `None` if it could
    /// not be written out.
    pub fn info_plist_xml(&self) -> (document: Option<Vec<u8>>)
        ensures
            match document {
                Some(bytes) => plist_xml(info_plist_spec()) == Some(bytes@),
                None => plist_xml(info_plist_spec()).is_none(),
            },
    {
        let entries = info_plist();
        to_xml(&entries)
    }

    /// Whether the agent is running.
    ///
    /// `installed` tells whether the agent's property list exists, and
    /// `listing` is what `launchctl list` printed, or `None` if it could not
    /// be run or reported failure. The agent is running if it is installed
    /// and the listing mentions its label.
    pub fn is_service_running(&self, installed: bool, listing: Option<&str>) -> (running: bool)
        ensures
            running == (installed && match listing {
                Some(listing) => occurs_in(PLIST_LABEL@, listing@),
                None => false,
            }),
    {
        if !installed {
            return false;
        }
        match listing {
            Some(listing) => contains(listing, PLIST_LABEL),
            None => false,
        }
    }

    /// Begins starting the agent.
    pub fn start_service(&self) -> (begin: (ServiceRun, ServiceAction))
        ensures
            begin == (ServiceRun::StartProbe, ServiceAction::ProbePlist),
    {
        (ServiceRun::StartProbe, ServiceAction::ProbePlist)
    }

    /// Begins stopping the agent.
    pub fn stop_service(&self) -> (begin: (ServiceRun, ServiceAction))
        ensures
            begin == (ServiceRun::StopProbe { restart: false }, ServiceAction::ProbePlist),
    {
        (ServiceRun::StopProbe { restart: false }, ServiceAction::ProbePlist)
    }

    /// Begins restarting the agent: a stop, and if that goes well, a start.
    pub fn restart_service(&self) -> (begin: (ServiceRun, ServiceAction))
        ensures
            begin == (ServiceRun::StopProbe { restart: true }, ServiceAction::ProbePlist),
    {
        (ServiceRun::StopProbe { restart: true }, ServiceAction::ProbePlist)
    }

    /// Takes a procedure one step further: given how the last action went,
    /// says where the procedure stands now and what is to be done next.
    pub fn advance(&self, run: ServiceRun, event: ServiceEvent) -> (next: (
        ServiceRun,
        ServiceAction,
    ))
        ensures
            next == step_spec(run, event),
    {
        match (run, event) {
            (ServiceRun::StopProbe { restart }, ServiceEvent::PlistExists(true)) => (
                ServiceRun::Unloading { restart },
                ServiceAction::Launchctl(LaunchctlVerb::Unload),
            ),
            (ServiceRun::StopProbe { restart }, ServiceEvent::PlistExists(false)) => {
                Self::finish_stop(restart)
            },
            (ServiceRun::Unloading { restart }, ServiceEvent::Launchctl(outcome)) => {
                match outcome {
                    None => Self::fail(ServiceError::LaunchctlNotRun(LaunchctlVerb::Unload)),
                    Some(false) => Self::fail(ServiceError::StopFailed),
                    Some(true) => Self::finish_stop(restart),
                }
            },
            (ServiceRun::StartProbe, ServiceEvent::PlistExists(installed)) => {
                if installed {
                    (ServiceRun::Loading, ServiceAction::Launchctl(LaunchctlVerb::Load))
                } else {
                    (ServiceRun::Installing, ServiceAction::Install)
                }
            },
            (ServiceRun::Installing, ServiceEvent::Installed(done)) => {
                if done {
                    (ServiceRun::Loading, ServiceAction::Launchctl(LaunchctlVerb::Load))
                } else {
                    Self::fail(ServiceError::InstallFailed)
                }
            },
            (ServiceRun::Loading, ServiceEvent::Launchctl(outcome)) => {
                match outcome {
                    None => Self::fail(ServiceError::LaunchctlNotRun(LaunchctlVerb::Load)),
                    Some(false) => Self::fail(ServiceError::StartFailed),
                    Some(true) => (ServiceRun::Finished, ServiceAction::Done),
                }
            },
            _ => Self::fail(ServiceError::OutOfOrder),
        }
    }

    fn finish_stop(restart: bool) -> (next: (ServiceRun, ServiceAction))
        ensures
            next == after_stop(restart),
    {
        if restart {
            (ServiceRun::StartProbe, ServiceAction::ProbePlist)
        } else {
            (ServiceRun::Finished, ServiceAction::Done)
        }
    }

    fn fail(error: ServiceError) -> (next: (ServiceRun, ServiceAction))
        ensures
            next == failed(error),
    {
        (ServiceRun::Finished, ServiceAction::Fail(error))
    }
}

} // verus!
