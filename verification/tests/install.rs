use hyper_sync::install::{
    autostart_path, run_install, run_uninstall, service_unit_path, systemctl_args, xdg_config_home_from,
    InstallStep, InstallTarget, SystemctlCall,
};

#[test]
fn config_home() {
    assert_eq!(xdg_config_home_from(Some("/x"), Some("/h")), Some("/x".to_string()));
    assert_eq!(xdg_config_home_from(None, Some("/h")), Some("/h/.config".to_string()));
    assert_eq!(xdg_config_home_from(None, None), None);
}

#[test]
fn install_paths() {
    assert_eq!(autostart_path("/h/.config"), "/h/.config/autostart/hyper-sync.desktop");
    assert_eq!(service_unit_path("/h/.config"), "/h/.config/systemd/user/hyper-sync.service");
}

#[test]
fn systemctl_calls() {
    assert_eq!(systemctl_args(SystemctlCall::DaemonReload), vec!["--user", "daemon-reload"]);
    assert_eq!(systemctl_args(SystemctlCall::EnableNow), vec!["--user", "enable", "--now", "hyper-sync.service"]);
    assert_eq!(systemctl_args(SystemctlCall::DisableNow), vec!["--user", "disable", "--now", "hyper-sync.service"]);
}

fn describe(steps: &[InstallStep]) -> Vec<String> {
    steps
        .iter()
        .map(|s| match s {
            InstallStep::CreateParentDir(p) => format!("mkdir {p}"),
            InstallStep::WriteDesktopEntry(p) => format!("desktop {p}"),
            InstallStep::WriteServiceUnit(p) => format!("unit {p}"),
            InstallStep::Systemctl { call, checked } => format!("systemctl {:?} {}", call, checked),
            InstallStep::RemoveIfExists(p) => format!("rm {p}"),
            InstallStep::Report(m) => format!("say {m}"),
            InstallStep::Fail(m) => format!("fail {m}"),
        })
        .collect()
}

#[test]
fn install_app_and_service() {
    let steps = run_install(InstallTarget::App, None, Some("/h"));
    assert_eq!(
        describe(&steps),
        vec!["desktop /h/.config/autostart/hyper-sync.desktop", "say installed /h/.config/autostart/hyper-sync.desktop"]
    );
    let steps = run_install(InstallTarget::Service, Some("/x"), None);
    assert_eq!(
        describe(&steps),
        vec![
            "mkdir /x/systemd/user/hyper-sync.service",
            "unit /x/systemd/user/hyper-sync.service",
            "systemctl DaemonReload true",
            "systemctl EnableNow true",
            "say installed and started /x/systemd/user/hyper-sync.service",
        ]
    );
}

#[test]
fn uninstall_app_and_service() {
    let steps = run_uninstall(InstallTarget::App, Some("/x"), None);
    assert_eq!(describe(&steps), vec!["rm /x/autostart/hyper-sync.desktop", "say removed /x/autostart/hyper-sync.desktop"]);
    let steps = run_uninstall(InstallTarget::Service, Some("/x"), None);
    assert_eq!(
        describe(&steps),
        vec![
            "systemctl DisableNow false",
            "rm /x/systemd/user/hyper-sync.service",
            "systemctl DaemonReload false",
            "say removed /x/systemd/user/hyper-sync.service",
        ]
    );
}

#[test]
fn no_home_fails() {
    assert_eq!(describe(&run_install(InstallTarget::App, None, None)), vec!["fail HOME or XDG_CONFIG_HOME required"]);
    assert_eq!(
        describe(&run_uninstall(InstallTarget::Service, None, None)),
        vec!["systemctl DisableNow false", "fail HOME or XDG_CONFIG_HOME required"]
    );
    assert_eq!(describe(&run_uninstall(InstallTarget::App, None, None)), vec!["fail HOME or XDG_CONFIG_HOME required"]);
}
