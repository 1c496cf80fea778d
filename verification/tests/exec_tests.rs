use topgrade::config::{Config, ExecutionContext, Step, UpdatesAutoReboot};
use topgrade::exec::{elevate, exit_status_ok, step_outcome, ExecutionRequest, RunType};
use topgrade::TopgradeError;

fn plain_config() -> Config {
    Config {
        yes_all: false,
        yes_steps: Vec::new(),
        cleanup: false,
        bootc: false,
        rpm_ostree: false,
        redhat_distro_sync: false,
        suse_dup: false,
        dnf_arguments: None,
        apt_arguments: None,
        emerge_sync_flags: None,
        emerge_update_flags: None,
        nix_arguments: None,
        firmware_upgrade: false,
        flatpak_use_sudo: false,
        distrobox_containers: None,
        distrobox_root: false,
        verbose: false,
        accept_all_windows_updates: false,
        windows_updates_auto_reboot: UpdatesAutoReboot::Ask,
    }
}

fn ctx(sudo: Option<&str>) -> ExecutionContext {
    ExecutionContext {
        run_type: RunType::Wet,
        sudo: sudo.map(|s| s.to_string()),
        config: plain_config(),
    }
}

#[test]
fn accepted_exit_codes_include_zero_and_the_extra_set() {
    let mut req = ExecutionRequest::new("fwupdmgr");
    req.arg("refresh");
    req.ok_code(2);
    assert!(exit_status_ok(&req, 0));
    assert!(exit_status_ok(&req, 2));
    assert!(!exit_status_ok(&req, 1));
    assert!(!exit_status_ok(&req, 3));
}

#[test]
fn default_accepted_set_is_zero_only() {
    let req = ExecutionRequest::new("apk");
    assert!(exit_status_ok(&req, 0));
    assert!(!exit_status_ok(&req, 2));
    assert!(!exit_status_ok(&req, 5));
}

#[test]
fn nonzero_code_in_the_set_is_success() {
    let mut req = ExecutionRequest::new("pkcon");
    req.ok_code(5);
    assert_eq!(step_outcome(RunType::Wet, &req, Some(5)), Ok(()));
    assert_eq!(
        step_outcome(RunType::Wet, &req, Some(4)),
        Err(TopgradeError::ExitCode(4))
    );
}

#[test]
fn dry_run_reports_success_without_an_exit_code() {
    let req = ExecutionRequest::new("apk");
    assert_eq!(step_outcome(RunType::Dry, &req, None), Ok(()));
    // Even a request with a narrow accepted set succeeds when nothing ran.
    let mut strict = ExecutionRequest::new("zypper");
    strict.arg("refresh");
    assert_eq!(step_outcome(RunType::Dry, &strict, None), Ok(()));
}

#[test]
fn dry_mode_is_recognised() {
    assert!(RunType::Dry.dry());
    assert!(!RunType::Wet.dry());
}

#[test]
fn elevation_retargets_the_invocation() {
    let mut req = ExecutionRequest::new("zypper");
    req.arg("refresh");
    let sudo = "sudo".to_string();
    let elevated = elevate(&sudo, req);
    assert_eq!(elevated.program, "sudo");
    assert_eq!(elevated.args, ["zypper", "refresh"]);
}

#[test]
fn request_builders_accumulate() {
    let mut req = ExecutionRequest::new("nu");
    req.env("PWD", "/");
    req.env("NU_PACKER_HOME", "/home/u/.local/share/nushell/packer");
    req.arg("-c");
    req.args_split("alpha  beta\tgamma");
    req.remove_env("PSModulePath");
    assert_eq!(req.program, "nu");
    assert_eq!(req.args, ["-c", "alpha", "beta", "gamma"]);
    assert_eq!(
        req.env_set,
        [
            ("PWD".to_string(), "/".to_string()),
            (
                "NU_PACKER_HOME".to_string(),
                "/home/u/.local/share/nushell/packer".to_string()
            )
        ]
    );
    assert_eq!(req.env_remove, ["PSModulePath"]);
    assert!(!req.capture);
}

#[test]
fn assume_yes_is_scoped_per_step() {
    let mut config = plain_config();
    config.yes_steps = vec![Step::System, Step::Flatpak];
    assert!(config.yes(Step::System));
    assert!(config.yes(Step::Flatpak));
    assert!(!config.yes(Step::Waydroid));
    config.yes_all = true;
    assert!(config.yes(Step::Waydroid));
}

#[test]
fn context_getters_hand_back_the_parts() {
    let c = ctx(Some("doas"));
    assert_eq!(c.run_type(), RunType::Wet);
    assert_eq!(c.sudo().as_deref(), Some("doas"));
    assert!(!c.config().cleanup);
}
