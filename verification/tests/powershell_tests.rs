use topgrade::config::{Config, ExecutionContext, Step, UpdatesAutoReboot};
use topgrade::exec::RunType;
use topgrade::powershell::Powershell;
use topgrade::TopgradeError;

fn shell_config() -> Config {
    Config {
        yes_all: false,
        yes_steps: Vec::new(),
        cleanup: false,
        bootc: false,
        rpm_ostree: false,
        redhat_distro_sync: false,
        suse_dup: false,
        dnf_arguments: None,
        apt_arguments: None,
        emerge_sync_flags: None,
        emerge_update_flags: None,
        nix_arguments: None,
        firmware_upgrade: false,
        flatpak_use_sudo: false,
        distrobox_containers: None,
        distrobox_root: false,
        verbose: false,
        accept_all_windows_updates: false,
        windows_updates_auto_reboot: UpdatesAutoReboot::Ask,
    }
}

fn shell_ctx(config: Config, sudo: Option<&str>) -> ExecutionContext {
    ExecutionContext {
        run_type: RunType::Wet,
        sudo: sudo.map(|s| s.to_string()),
        config,
    }
}

fn pwsh() -> Powershell {
    Powershell::new(false, Some("/usr/bin/pwsh".to_string()), None).unwrap()
}

fn older_shell() -> Powershell {
    Powershell::new(false, None, Some("powershell.exe".to_string())).unwrap()
}

#[test]
fn discovery_prefers_the_newer_shell() {
    let ps = Powershell::new(
        false,
        Some("/usr/bin/pwsh".to_string()),
        Some("powershell.exe".to_string()),
    )
    .unwrap();
    assert_eq!(ps.path, "/usr/bin/pwsh");
    assert!(ps.is_pwsh);
    assert_eq!(ps.profile(), &None);
    let ps = Powershell::new(false, None, Some("powershell.exe".to_string())).unwrap();
    assert_eq!(ps.path, "powershell.exe");
    assert!(!ps.is_pwsh);
}

#[test]
fn discovery_fails_on_dumb_terminals_or_no_shell() {
    assert!(Powershell::new(true, Some("pwsh".to_string()), None).is_none());
    assert!(Powershell::new(false, None, None).is_none());
}

#[test]
fn profile_round_trip() {
    let mut ps = pwsh();
    ps.set_profile(Some("/home/u/.config/powershell".to_string()));
    assert_eq!(ps.profile().as_deref(), Some("/home/u/.config/powershell"));
}

#[test]
fn internal_commands_probe_quietly() {
    let ps = pwsh();
    let q = ps.profile_query();
    assert_eq!(q.program, "/usr/bin/pwsh");
    assert_eq!(q.args, ["-NoProfile", "-Command", "Split-Path $PROFILE"]);
    assert!(q.capture);
    assert!(q.env_remove.is_empty());
}

#[test]
fn older_shell_drops_the_inherited_module_path() {
    let ps = older_shell();
    let q = ps.build_command_internal("Get-ExecutionPolicy");
    assert_eq!(q.env_remove, ["PSModulePath"]);
}

#[test]
fn update_modules_elevates_only_the_older_shell() {
    let c = shell_ctx(shell_config(), Some("sudo"));
    let newer = pwsh().update_modules(&c);
    assert_eq!(newer.program, "/usr/bin/pwsh");
    assert_eq!(newer.args, ["-NoProfile", "-Command", "Update-Module"]);
    let older = older_shell().update_modules(&c);
    assert_eq!(older.program, "sudo");
    assert_eq!(
        older.args,
        ["powershell.exe", "-NoProfile", "-Command", "Update-Module"]
    );
}

#[test]
fn update_modules_grows_the_command_from_the_policy() {
    let mut config = shell_config();
    config.verbose = true;
    config.yes_steps = vec![Step::Powershell];
    let c = shell_ctx(config, None);
    let req = pwsh().update_modules(&c);
    assert_eq!(
        req.args,
        ["-NoProfile", "-Command", "Update-Module -Verbose -Force"]
    );
}

#[test]
fn execution_policy_ordering() {
    let ps = pwsh();
    assert!(ps.is_execution_policy_set("RemoteSigned", "RemoteSigned\n"));
    assert!(ps.is_execution_policy_set("RemoteSigned", "Unrestricted\n"));
    assert!(ps.is_execution_policy_set("RemoteSigned", "Bypass"));
    assert!(!ps.is_execution_policy_set("RemoteSigned", "AllSigned\n"));
    assert!(!ps.is_execution_policy_set("RemoteSigned", "Restricted"));
    assert!(!ps.is_execution_policy_set("RemoteSigned", "Gibberish"));
    assert!(ps.execution_policy_args_if_needed("Unrestricted\n").is_ok());
    assert_eq!(
        ps.execution_policy_args_if_needed("Restricted\n").unwrap_err(),
        TopgradeError::ExecutionPolicy
    );
}

#[test]
fn module_availability_reads_the_probe() {
    let ps = pwsh();
    let q = ps.supports_windows_update_request();
    assert_eq!(
        q.args,
        ["-NoProfile", "-Command", "Get-Module -ListAvailable PSWindowsUpdate"]
    );
    assert!(ps.supports_windows_update(true, "PSWindowsUpdate 2.2.0\n"));
    assert!(!ps.supports_windows_update(true, "   \n"));
    assert!(!ps.supports_windows_update(false, "PSWindowsUpdate 2.2.0\n"));
}

#[test]
fn windows_update_folds_the_policy_into_the_command() {
    let mut config = shell_config();
    config.accept_all_windows_updates = true;
    config.windows_updates_auto_reboot = UpdatesAutoReboot::No;
    let c = shell_ctx(config, Some("sudo"));
    let req = pwsh().windows_update(&c);
    assert_eq!(req.program, "sudo");
    assert_eq!(
        req.args,
        [
            "/usr/bin/pwsh",
            "-NoProfile",
            "-Command",
            "Import-Module PSWindowsUpdate; Install-WindowsUpdate -Verbose -AcceptAll -IgnoreReboot"
        ]
    );
}

#[test]
fn store_scan_outcome_reads_the_return_value() {
    let ps = pwsh();
    let c = shell_ctx(shell_config(), None);
    let req = ps.microsoft_store(&c);
    assert!(req.capture);
    assert!(ps.microsoft_store_result(true, "0\n").is_ok());
    assert_eq!(
        ps.microsoft_store_result(true, "1\n").unwrap_err(),
        TopgradeError::InvalidOutput
    );
    assert_eq!(
        ps.microsoft_store_result(false, "0\n").unwrap_err(),
        TopgradeError::InvalidOutput
    );
}
