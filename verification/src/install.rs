//! Installing and removing the session autostart entry and the systemd user
//! service: where the files go, and the steps, in order, that the command
//! line carries out.

use vstd::prelude::*;
use crate::config::spec_base_dir;
use crate::text::{join_path, owned, push_str, spec_join};

verus! {

/// What to install or remove.
#[derive(Debug, Clone, Copy, PartialEq, Eq, Structural)]
pub enum InstallTarget {
    /// The systemd user service (starts on login).
    Service,
    /// The session autostart desktop entry only.
    App,
}

/// The user's configuration home: `$XDG_CONFIG_HOME`, else `$HOME/.config`;
/// `None` when neither variable is set.
pub open spec fn spec_xdg_config_home(xdg: Option<Seq<char>>, home: Option<Seq<char>>) -> Option<Seq<char>> {
    match xdg {
        Some(x) => Some(x),
        None => match home {
            Some(h) => Some(spec_base_dir(None, Some(h), seq!['.', 'c', 'o', 'n', 'f', 'i', 'g'])),
            None => None,
        },
    }
}

/// The configuration home from the values of `XDG_CONFIG_HOME` and `HOME`;
/// see [`spec_xdg_config_home`].
pub fn xdg_config_home_from(xdg: Option<&str>, home: Option<&str>) -> (r: Option<String>)
    ensures
        match r {
            Some(s) => spec_xdg_config_home(crate::config::opt_view(xdg), crate::config::opt_view(home))
                == Some(s@),
            None => spec_xdg_config_home(crate::config::opt_view(xdg), crate::config::opt_view(home))
                is None,
        },
{
    proof { reveal_strlit(".config"); }
    match xdg {
        Some(x) => Some(owned(x)),
        None => match home {
            Some(h) => Some(join_path(h, ".config")),
            None => None,
        },
    }
}

/// Characters of `autostart/hyper-sync.desktop`.
pub open spec fn autostart_rel() -> Seq<char> {
    seq!['a', 'u', 't', 'o', 's', 't', 'a', 'r', 't', '/'] + seq![
        'h', 'y', 'p', 'e', 'r', '-', 's', 'y', 'n', 'c', '.', 'd', 'e', 's', 'k', 't', 'o', 'p'
    ]
}

/// Characters of `systemd/user/hyper-sync.service`.
pub open spec fn service_rel() -> Seq<char> {
    seq!['s', 'y', 's', 't', 'e', 'm', 'd', '/', 'u', 's', 'e', 'r', '/'] + seq![
        'h', 'y', 'p', 'e', 'r', '-', 's', 'y', 'n', 'c', '.', 's', 'e', 'r', 'v', 'i', 'c', 'e'
    ]
}

/// The autostart desktop entry under the configuration home.
pub fn autostart_path(config_home: &str) -> (r: String)
    ensures
        r@ == spec_join(config_home@, autostart_rel()),
{
    let rel = "autostart/hyper-sync.desktop";
    proof {
        reveal_strlit("autostart/hyper-sync.desktop");
        assert(rel@ =~= autostart_rel());
    }
    join_path(config_home, rel)
}

/// The systemd user unit under the configuration home.
pub fn service_unit_path(config_home: &str) -> (r: String)
    ensures
        r@ == spec_join(config_home@, service_rel()),
{
    let rel = "systemd/user/hyper-sync.service";
    proof {
        reveal_strlit("systemd/user/hyper-sync.service");
        assert(rel@ =~= service_rel());
    }
    join_path(config_home, rel)
}

/// A `systemctl --user` call.
#[derive(Debug, Clone, Copy, PartialEq, Eq, Structural)]
pub enum SystemctlCall {
    /// `systemctl --user daemon-reload`
    DaemonReload,
    /// `systemctl --user enable --now hyper-sync.service`
    EnableNow,
    /// `systemctl --user disable --now hyper-sync.service`
    DisableNow,
}

/// The arguments of a `systemctl` call, one string each.
pub open spec fn spec_systemctl_args(c: SystemctlCall) -> Seq<Seq<char>> {
    let user = seq!['-', '-', 'u', 's', 'e', 'r'];
    let now = seq!['-', '-', 'n', 'o', 'w'];
    let unit = seq!['h', 'y', 'p', 'e', 'r', '-', 's', 'y', 'n', 'c', '.', 's', 'e', 'r', 'v', 'i', 'c', 'e'];
    match c {
        SystemctlCall::DaemonReload => seq![
            user,
            seq!['d', 'a', 'e', 'm', 'o', 'n', '-', 'r', 'e', 'l', 'o', 'a', 'd'],
        ],
        SystemctlCall::EnableNow => seq![user, seq!['e', 'n', 'a', 'b', 'l', 'e'], now, unit],
        SystemctlCall::DisableNow => seq![user, seq!['d', 'i', 's', 'a', 'b', 'l', 'e'], now, unit],
    }
}

/// The arguments to pass to `systemctl` for `c`; see [`spec_systemctl_args`].
pub fn systemctl_args(c: SystemctlCall) -> (v: Vec<&'static str>)
    ensures
        v@.len() == spec_systemctl_args(c).len(),
        forall|i: int| 0 <= i < v@.len() ==> #[trigger] v@[i]@ == spec_systemctl_args(c)[i],
{
    proof {
        reveal_strlit("--user");
        reveal_strlit("daemon-reload");
        reveal_strlit("enable");
        reveal_strlit("disable");
        reveal_strlit("--now");
        reveal_strlit("hyper-sync.service");
    }
    let v = match c {
        SystemctlCall::DaemonReload => vec!["--user", "daemon-reload"],
        SystemctlCall::EnableNow => vec!["--user", "enable", "--now", "hyper-sync.service"],
        SystemctlCall::DisableNow => vec!["--user", "disable", "--now", "hyper-sync.service"],
    };
    proof {
        let args = spec_systemctl_args(c);
        assert forall|i: int| 0 <= i < v@.len() implies #[trigger] v@[i]@ == args[i] by {
            assert(v@[i]@ =~= args[i]);
        }
    }
    v
}

/// One step of installing or removing; paths are absolute or relative to
/// the working directory.
#[derive(Debug)]
pub enum InstallStep {
    /// Create the directory that holds this file, with its parents; a
    /// failure ends the command with an error.
    CreateParentDir(String),
    /// Write the bundled desktop entry to this file (creating its
    /// directory); a failure ends the command with an error.
    WriteDesktopEntry(String),
    /// Write the bundled service unit to this file (creating its
    /// directory); a failure ends the command with an error.
    WriteServiceUnit(String),
    /// Run `systemctl`; when `checked`, failing to run it or a non-zero exit
    /// ends the command with an error, otherwise its outcome is ignored.
    Systemctl { call: SystemctlCall, checked: bool },
    /// Remove this file; a file that is not there is no error, any other
    /// failure ends the command with an error.
    RemoveIfExists(String),
    /// Print this line on standard error.
    Report(String),
    /// End the command with this error.
    Fail(String),
}

/// The mathematical value of a step.
pub enum StepModel {
    CreateParentDir(Seq<char>),
    WriteDesktopEntry(Seq<char>),
    WriteServiceUnit(Seq<char>),
    Systemctl(SystemctlCall, bool),
    RemoveIfExists(Seq<char>),
    Report(Seq<char>),
    Fail(Seq<char>),
}

impl View for InstallStep {
    type V = StepModel;

    open spec fn view(&self) -> StepModel {
        match self {
            InstallStep::CreateParentDir(p) => StepModel::CreateParentDir(p@),
            InstallStep::WriteDesktopEntry(p) => StepModel::WriteDesktopEntry(p@),
            InstallStep::WriteServiceUnit(p) => StepModel::WriteServiceUnit(p@),
            InstallStep::Systemctl { call, checked } => StepModel::Systemctl(*call, *checked),
            InstallStep::RemoveIfExists(p) => StepModel::RemoveIfExists(p@),
            InstallStep::Report(m) => StepModel::Report(m@),
            InstallStep::Fail(m) => StepModel::Fail(m@),
        }
    }
}

/// Characters of `installed `.
pub open spec fn installed_word() -> Seq<char> {
    seq!['i', 'n', 's', 't', 'a', 'l', 'l', 'e', 'd', ' ']
}

/// Characters of `installed and started `.
pub open spec fn installed_started_words() -> Seq<char> {
    installed_word() + seq!['a', 'n', 'd', ' ', 's', 't', 'a', 'r', 't', 'e', 'd', ' ']
}

/// Characters of `HOME or XDG_CONFIG_HOME required`.
pub open spec fn no_home_message() -> Seq<char> {
    seq!['H', 'O', 'M', 'E', ' ', 'o', 'r', ' '] + seq![
        'X', 'D', 'G', '_', 'C', 'O', 'N', 'F', 'I', 'G', '_', 'H', 'O', 'M', 'E'
    ] + seq![' ', 'r', 'e', 'q', 'u', 'i', 'r', 'e', 'd']
}

/// Characters of `removed `.
pub open spec fn removed_word() -> Seq<char> {
    seq!['r', 'e', 'm', 'o', 'v', 'e', 'd', ' ']
}

/// The steps that install `target` under the configuration home `home`:
/// the desktop entry is written and reported; the service unit's
/// directory is created, the unit written, systemd reloaded and the unit
/// enabled and started (both checked), and that is reported.
pub open spec fn install_plan(target: InstallTarget, home: Seq<char>) -> Seq<StepModel> {
    match target {
        InstallTarget::App => {
            let path = spec_join(home, autostart_rel());
            seq![StepModel::WriteDesktopEntry(path), StepModel::Report(installed_word() + path)]
        },
        InstallTarget::Service => {
            let path = spec_join(home, service_rel());
            seq![
                StepModel::CreateParentDir(path),
                StepModel::WriteServiceUnit(path),
                StepModel::Systemctl(SystemctlCall::DaemonReload, true),
                StepModel::Systemctl(SystemctlCall::EnableNow, true),
                StepModel::Report(installed_started_words() + path),
            ]
        },
    }
}

/// The steps that remove `target` under the configuration home `home`: the
/// desktop entry is removed and reported; the service is disabled and
/// stopped (unchecked), the unit removed, systemd reloaded (unchecked), and
/// that is reported.
pub open spec fn uninstall_plan(target: InstallTarget, home: Seq<char>) -> Seq<StepModel> {
    match target {
        InstallTarget::App => {
            let path = spec_join(home, autostart_rel());
            seq![StepModel::RemoveIfExists(path), StepModel::Report(removed_word() + path)]
        },
        InstallTarget::Service => {
            let path = spec_join(home, service_rel());
            seq![
                StepModel::Systemctl(SystemctlCall::DisableNow, false),
                StepModel::RemoveIfExists(path),
                StepModel::Systemctl(SystemctlCall::DaemonReload, false),
                StepModel::Report(removed_word() + path),
            ]
        },
    }
}

/// The steps of the `install` command for the values of
/// `XDG_CONFIG_HOME` and `HOME`: without a configuration home it fails at
/// once.
pub open spec fn install_command(target: InstallTarget, xdg: Option<Seq<char>>, home: Option<Seq<char>>) -> Seq<StepModel> {
    match spec_xdg_config_home(xdg, home) {
        Some(h) => install_plan(target, h),
        None => seq![StepModel::Fail(no_home_message())],
    }
}

/// The steps of the `uninstall` command for the values of
/// `XDG_CONFIG_HOME` and `HOME`: without a configuration home, removing
/// the service still disables it before failing.
pub open spec fn uninstall_command(target: InstallTarget, xdg: Option<Seq<char>>, home: Option<Seq<char>>) -> Seq<StepModel> {
    match spec_xdg_config_home(xdg, home) {
        Some(h) => uninstall_plan(target, h),
        None => match target {
            InstallTarget::App => seq![StepModel::Fail(no_home_message())],
            InstallTarget::Service => seq![
                StepModel::Systemctl(SystemctlCall::DisableNow, false),
                StepModel::Fail(no_home_message()),
            ],
        },
    }
}

/// `steps` has the values of `plan`, in order.
pub open spec fn steps_are(steps: Seq<InstallStep>, plan: Seq<StepModel>) -> bool {
    steps.len() == plan.len() && forall|i: int| 0 <= i < steps.len() ==> #[trigger] steps[i]@ == plan[i]
}

fn message(word: &str, path: &String) -> (r: String)
    ensures
        r@ == word@ + path@,
{
    let mut m = owned(word);
    push_str(&mut m, path.as_str());
    m
}

/// The steps that install `target` under the configuration home
/// `config_home`; see [`install_plan`].
pub fn install_steps(target: InstallTarget, config_home: &str) -> (steps: Vec<InstallStep>)
    ensures
        steps_are(steps@, install_plan(target, config_home@)),
{
    match target {
        InstallTarget::App => {
            let path = autostart_path(config_home);
            proof { reveal_strlit("installed "); }
            let report = message("installed ", &path);
            let steps = vec![InstallStep::WriteDesktopEntry(path), InstallStep::Report(report)];
            proof {
                let plan = install_plan(target, config_home@);
                assert forall|i: int| 0 <= i < steps@.len() implies #[trigger] steps@[i]@ == plan[i] by {
                    if i == 1 {
                        assert(report@ =~= installed_word() + spec_join(config_home@, autostart_rel()));
                    }
                }
            }
            steps
        },
        InstallTarget::Service => {
            let path = service_unit_path(config_home);
            proof { reveal_strlit("installed and started "); }
            let report = message("installed and started ", &path);
            let steps = vec![
                InstallStep::CreateParentDir(path.clone()),
                InstallStep::WriteServiceUnit(path),
                InstallStep::Systemctl { call: SystemctlCall::DaemonReload, checked: true },
                InstallStep::Systemctl { call: SystemctlCall::EnableNow, checked: true },
                InstallStep::Report(report),
            ];
            proof {
                let plan = install_plan(target, config_home@);
                assert forall|i: int| 0 <= i < steps@.len() implies #[trigger] steps@[i]@ == plan[i] by {
                    if i == 4 {
                        assert(report@ =~= installed_started_words() + spec_join(config_home@, service_rel()));
                    }
                }
            }
            steps
        },
    }
}

/// The steps that remove `target` under the configuration home
/// `config_home`; see [`uninstall_plan`].
pub fn uninstall_steps(target: InstallTarget, config_home: &str) -> (steps: Vec<InstallStep>)
    ensures
        steps_are(steps@, uninstall_plan(target, config_home@)),
{
    proof { reveal_strlit("removed "); }
    match target {
        InstallTarget::App => {
            let path = autostart_path(config_home);
            let report = message("removed ", &path);
            let steps = vec![InstallStep::RemoveIfExists(path), InstallStep::Report(report)];
            proof {
                let plan = uninstall_plan(target, config_home@);
                assert forall|i: int| 0 <= i < steps@.len() implies #[trigger] steps@[i]@ == plan[i] by {
                    if i == 1 {
                        assert(report@ =~= removed_word() + spec_join(config_home@, autostart_rel()));
                    }
                }
            }
            steps
        },
        InstallTarget::Service => {
            let path = service_unit_path(config_home);
            let report = message("removed ", &path);
            let steps = vec![
                InstallStep::Systemctl { call: SystemctlCall::DisableNow, checked: false },
                InstallStep::RemoveIfExists(path),
                InstallStep::Systemctl { call: SystemctlCall::DaemonReload, checked: false },
                InstallStep::Report(report),
            ];
            proof {
                let plan = uninstall_plan(target, config_home@);
                assert forall|i: int| 0 <= i < steps@.len() implies #[trigger] steps@[i]@ == plan[i] by {
                    if i == 3 {
                        assert(report@ =~= removed_word() + spec_join(config_home@, service_rel()));
                    }
                }
            }
            steps
        },
    }
}

fn no_home() -> (r: String)
    ensures
        r@ == no_home_message(),
{
    let m = "HOME or XDG_CONFIG_HOME required";
    proof {
        reveal_strlit("HOME or XDG_CONFIG_HOME required");
        assert(m@ =~= no_home_message());
    }
    owned(m)
}

/// The steps of `install` for `target`, given the values of
/// `XDG_CONFIG_HOME` and `HOME` (`None` when unset); see
/// [`install_command`].
pub fn run_install(target: InstallTarget, xdg_config_home: Option<&str>, home: Option<&str>) -> (steps: Vec<InstallStep>)
    ensures
        steps_are(steps@, install_command(target, crate::config::opt_view(xdg_config_home), crate::config::opt_view(home))),
{
    match xdg_config_home_from(xdg_config_home, home) {
        Some(h) => install_steps(target, h.as_str()),
        None => {
            let steps = vec![InstallStep::Fail(no_home())];
            proof {
                assert(steps@[0]@ == install_command(target, crate::config::opt_view(xdg_config_home), crate::config::opt_view(home))[0]);
            }
            steps
        },
    }
}

/// The steps of `uninstall` for `target`, given the values of
/// `XDG_CONFIG_HOME` and `HOME` (`None` when unset); see
/// [`uninstall_command`].
pub fn run_uninstall(target: InstallTarget, xdg_config_home: Option<&str>, home: Option<&str>) -> (steps: Vec<InstallStep>)
    ensures
        steps_are(steps@, uninstall_command(target, crate::config::opt_view(xdg_config_home), crate::config::opt_view(home))),
{
    match xdg_config_home_from(xdg_config_home, home) {
        Some(h) => uninstall_steps(target, h.as_str()),
        None => {
            let ghost plan = uninstall_command(target, crate::config::opt_view(xdg_config_home), crate::config::opt_view(home));
            match target {
                InstallTarget::App => {
                    let steps = vec![InstallStep::Fail(no_home())];
                    assert(steps@[0]@ == plan[0]);
                    steps
                },
                InstallTarget::Service => {
                    let steps = vec![
                        InstallStep::Systemctl { call: SystemctlCall::DisableNow, checked: false },
                        InstallStep::Fail(no_home()),
                    ];
                    assert forall|i: int| 0 <= i < steps@.len() implies #[trigger] steps@[i]@ == plan[i] by {}
                    steps
                },
            }
        },
    }
}

/// The file that installing `target` writes.
pub open spec fn target_file(target: InstallTarget, home: Seq<char>) -> Seq<char> {
    match target {
        InstallTarget::App => spec_join(home, autostart_rel()),
        InstallTarget::Service => spec_join(home, service_rel()),
    }
}

/// Removing a target deletes the very file that installing it writes.
pub proof fn lemma_uninstall_removes_installed_file(target: InstallTarget, home: Seq<char>)
    ensures
        install_plan(target, home).contains(
            match target {
                InstallTarget::App => StepModel::WriteDesktopEntry(target_file(target, home)),
                InstallTarget::Service => StepModel::WriteServiceUnit(target_file(target, home)),
            },
        ),
        uninstall_plan(target, home).contains(StepModel::RemoveIfExists(target_file(target, home))),
{
    match target {
        InstallTarget::App => {
            assert(install_plan(target, home)[0] == StepModel::WriteDesktopEntry(target_file(target, home)));
            assert(uninstall_plan(target, home)[0] == StepModel::RemoveIfExists(target_file(target, home)));
        },
        InstallTarget::Service => {
            assert(install_plan(target, home)[1] == StepModel::WriteServiceUnit(target_file(target, home)));
            assert(uninstall_plan(target, home)[1] == StepModel::RemoveIfExists(target_file(target, home)));
        },
    }
}

} // verus!
