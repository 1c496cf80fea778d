use topgrade::config::{Config, ExecutionContext, Step, UpdatesAutoReboot};
use topgrade::distribution::Distribution;
use topgrade::exec::RunType;
use topgrade::steps::{
    pacdef_procedure, run_am, run_config_update, run_deb_get, run_distrobox_update,
    run_dkp_pacman_update, run_flatpak, run_fwupdmgr, run_lure_update, run_needrestart,
    run_pacdef, run_snap, run_waydroid, should_skip_needrestart, waydroid_needs_confirmation,
    waydroid_upgrade,
};
use topgrade::TopgradeError;

fn quiet_config() -> Config {
    Config {
        yes_all: false,
        yes_steps: Vec::new(),
        cleanup: false,
        bootc: false,
        rpm_ostree: false,
        redhat_distro_sync: false,
        suse_dup: false,
        dnf_arguments: None,
        apt_arguments: None,
        emerge_sync_flags: None,
        emerge_update_flags: None,
        nix_arguments: None,
        firmware_upgrade: false,
        flatpak_use_sudo: false,
        distrobox_containers: None,
        distrobox_root: false,
        verbose: false,
        accept_all_windows_updates: false,
        windows_updates_auto_reboot: UpdatesAutoReboot::Ask,
    }
}

fn step_ctx(config: Config, sudo: Option<&str>) -> ExecutionContext {
    ExecutionContext {
        run_type: RunType::Wet,
        sudo: sudo.map(|s| s.to_string()),
        config,
    }
}

#[test]
fn needrestart_always_skipped_on_redhat_family() {
    // Regardless of every front-end flag combination.
    for (apt_fast, mist, nala) in [
        (None, false, false),
        (None, true, false),
        (None, false, true),
        (Some("apt-fast".to_string()), true, true),
    ] {
        assert_eq!(
            should_skip_needrestart(Distribution::CentOS, apt_fast.as_ref(), mist, nala)
                .unwrap_err(),
            TopgradeError::SkipStep
        );
        assert_eq!(
            should_skip_needrestart(Distribution::Fedora, apt_fast.as_ref(), mist, nala)
                .unwrap_err(),
            TopgradeError::SkipStep
        );
    }
}

#[test]
fn needrestart_skipped_on_debian_only_under_nala() {
    assert_eq!(
        should_skip_needrestart(Distribution::Debian, None, false, true).unwrap_err(),
        TopgradeError::SkipStep
    );
    assert!(should_skip_needrestart(Distribution::Debian, None, false, false).is_ok());
    assert!(should_skip_needrestart(Distribution::Debian, None, true, true).is_ok());
    assert!(should_skip_needrestart(Distribution::Suse, None, false, true).is_ok());
}

#[test]
fn needrestart_plan_is_one_elevated_call() {
    let tool = "needrestart".to_string();
    let plan = run_needrestart(
        &step_ctx(quiet_config(), Some("sudo")),
        Some(&tool),
        Distribution::Debian,
        None,
        false,
        false,
    )
    .unwrap();
    assert_eq!(plan.len(), 1);
    assert_eq!(plan[0].program, "sudo");
    assert_eq!(plan[0].args, ["needrestart"]);
}

#[test]
fn fwupdmgr_refresh_tolerates_code_two() {
    let tool = "fwupdmgr".to_string();
    let plan = run_fwupdmgr(&step_ctx(quiet_config(), None), Some(&tool), false).unwrap();
    assert_eq!(plan.len(), 2);
    assert_eq!(plan[0].args, ["refresh"]);
    assert_eq!(plan[0].ok_codes, [2]);
    assert_eq!(plan[1].args, ["get-updates"]);
    assert_eq!(plan[1].ok_codes, [2]);
}

#[test]
fn fwupdmgr_upgrade_mode_and_wsl_skip() {
    let mut config = quiet_config();
    config.firmware_upgrade = true;
    config.yes_steps = vec![Step::System];
    let tool = "fwupdmgr".to_string();
    let plan = run_fwupdmgr(&step_ctx(config, None), Some(&tool), false).unwrap();
    assert_eq!(plan[1].args, ["update", "-y"]);
    assert_eq!(
        run_fwupdmgr(&step_ctx(quiet_config(), None), Some(&tool), true).unwrap_err(),
        TopgradeError::SkipStep
    );
}

#[test]
fn flatpak_user_then_system_with_cleanup_under_sudo() {
    let mut config = quiet_config();
    config.cleanup = true;
    config.flatpak_use_sudo = true;
    config.yes_steps = vec![Step::Flatpak];
    let tool = "flatpak".to_string();
    let plan = run_flatpak(&step_ctx(config, Some("sudo")), Some(&tool), false).unwrap();
    assert_eq!(plan.len(), 4);
    assert_eq!(plan[0].program, "flatpak");
    assert_eq!(plan[0].args, ["update", "--user", "-y"]);
    assert_eq!(plan[1].args, ["uninstall", "--user", "--unused", "-y"]);
    assert_eq!(plan[2].program, "sudo");
    assert_eq!(plan[2].args, ["flatpak", "update", "--system", "-y"]);
    assert_eq!(
        plan[3].args,
        ["flatpak", "uninstall", "--system", "--unused", "-y"]
    );
}

#[test]
fn flatpak_system_phase_unelevated_by_default() {
    let tool = "flatpak".to_string();
    let plan = run_flatpak(&step_ctx(quiet_config(), Some("sudo")), Some(&tool), false).unwrap();
    assert_eq!(plan.len(), 2);
    assert_eq!(plan[0].args, ["update", "--user"]);
    assert_eq!(plan[1].program, "flatpak");
    assert_eq!(plan[1].args, ["update", "--system"]);
}

#[test]
fn snap_needs_its_socket() {
    let tool = "snap".to_string();
    assert_eq!(
        run_snap(&step_ctx(quiet_config(), Some("sudo")), Some(&tool), false).unwrap_err(),
        TopgradeError::SkipStep
    );
    let plan = run_snap(&step_ctx(quiet_config(), Some("sudo")), Some(&tool), true).unwrap();
    assert_eq!(plan[0].args, ["snap", "refresh"]);
}

#[test]
fn deb_get_cleanup_phase_is_captured() {
    let mut config = quiet_config();
    config.cleanup = true;
    let tool = "deb-get".to_string();
    let plan = run_deb_get(&step_ctx(config, None), Some(&tool)).unwrap();
    assert_eq!(plan.len(), 3);
    assert_eq!(plan[2].args, ["clean"]);
    assert!(plan[2].capture);
    assert!(!plan[0].capture);
}

#[test]
fn am_update_is_forced_only_under_its_own_scope() {
    let tool = "am".to_string();
    let plan = run_am(&step_ctx(quiet_config(), None), Some(&tool)).unwrap();
    assert_eq!(plan[0].args, ["-u"]);
    let mut config = quiet_config();
    config.yes_steps = vec![Step::AM];
    let plan = run_am(&step_ctx(config, None), Some(&tool)).unwrap();
    assert_eq!(plan[0].args, ["-U"]);
}

#[test]
fn pacdef_generations_change_the_subcommands() {
    let tool = "pacdef".to_string();
    let probe = run_pacdef(&step_ctx(quiet_config(), None), Some(&tool)).unwrap();
    assert_eq!(probe.args, ["version"]);
    assert!(probe.capture);
    let c = step_ctx(quiet_config(), None);
    let newer = pacdef_procedure(&c, &tool, "pacdef, version: 1.2.0");
    assert_eq!(newer[0].args, ["package", "sync"]);
    assert_eq!(newer[1].args, ["package", "review"]);
    let older = pacdef_procedure(&c, &tool, "pacdef 0.9");
    assert_eq!(older[0].args, ["sync"]);
    assert_eq!(older[1].args, ["review"]);
}

#[test]
fn distrobox_scopes_to_containers_or_all() {
    let tool = "distrobox".to_string();
    let mut config = quiet_config();
    config.distrobox_containers = Some(vec!["dev".to_string(), "play".to_string()]);
    config.distrobox_root = true;
    let plan = run_distrobox_update(&step_ctx(config, None), Some(&tool)).unwrap();
    assert_eq!(plan[0].args, ["upgrade", "dev", "play", "--root"]);
    let plan = run_distrobox_update(&step_ctx(quiet_config(), None), Some(&tool)).unwrap();
    assert_eq!(plan[0].args, ["upgrade", "--all"]);
    let mut config = quiet_config();
    config.distrobox_containers = Some(Vec::new());
    assert_eq!(
        run_distrobox_update(&step_ctx(config, None), Some(&tool)).unwrap_err(),
        TopgradeError::SkipStep
    );
}

#[test]
fn dkp_pacman_cleanup_is_policy_gated() {
    let tool = "dkp-pacman".to_string();
    let plan =
        run_dkp_pacman_update(&step_ctx(quiet_config(), Some("sudo")), Some(&tool)).unwrap();
    assert_eq!(plan.len(), 1);
    assert_eq!(plan[0].args, ["dkp-pacman", "-Syu"]);
    let mut config = quiet_config();
    config.cleanup = true;
    let plan = run_dkp_pacman_update(&step_ctx(config, Some("sudo")), Some(&tool)).unwrap();
    assert_eq!(plan.len(), 2);
    assert_eq!(plan[1].args, ["dkp-pacman", "-Scc"]);
}

#[test]
fn config_update_is_skipped_under_assume_yes() {
    let mut config = quiet_config();
    config.yes_steps = vec![Step::ConfigUpdate];
    let etc_update = "etc-update".to_string();
    assert_eq!(
        run_config_update(
            &step_ctx(config, Some("sudo")),
            Some(&etc_update),
            None,
            false,
            None
        )
        .unwrap_err(),
        TopgradeError::SkipStep
    );
}

#[test]
fn config_update_prefers_the_first_merge_tool() {
    let etc_update = "etc-update".to_string();
    let pacdiff = "pacdiff".to_string();
    let vim = "vim".to_string();
    let plan = run_config_update(
        &step_ctx(quiet_config(), Some("sudo")),
        Some(&etc_update),
        Some(&pacdiff),
        false,
        None,
    )
    .unwrap();
    assert_eq!(plan[0].args, ["etc-update"]);
    let plan = run_config_update(
        &step_ctx(quiet_config(), Some("sudo")),
        None,
        Some(&pacdiff),
        false,
        Some(&vim),
    )
    .unwrap();
    assert_eq!(plan[0].args, ["pacdiff"]);
    assert_eq!(
        run_config_update(
            &step_ctx(quiet_config(), Some("sudo")),
            None,
            Some(&pacdiff),
            false,
            None
        )
        .unwrap_err(),
        TopgradeError::ToolMissing
    );
}

#[test]
fn lure_is_non_interactive_under_its_scope() {
    let tool = "lure".to_string();
    let plan = run_lure_update(&step_ctx(quiet_config(), None), Some(&tool)).unwrap();
    assert_eq!(plan[0].args, ["up"]);
    let mut config = quiet_config();
    config.yes_steps = vec![Step::Lure];
    let plan = run_lure_update(&step_ctx(config, None), Some(&tool)).unwrap();
    assert_eq!(plan[0].args, ["-i=false", "up"]);
}

#[test]
fn waydroid_probe_then_gate() {
    let tool = "waydroid".to_string();
    let probe = run_waydroid(&step_ctx(quiet_config(), Some("sudo")), Some(&tool)).unwrap();
    assert_eq!(probe.program, "waydroid");
    assert_eq!(probe.args, ["status"]);
    assert!(probe.capture);
    let running = "Session:\tRUNNING\nContainer:\tRUNNING\nVendor type:\tMAINLINE\n";
    let stopped = "Session:\tSTOPPED\nVendor type:\tMAINLINE\n";
    assert!(waydroid_needs_confirmation(running, false));
    assert!(!waydroid_needs_confirmation(running, true));
    assert!(!waydroid_needs_confirmation(stopped, false));
}

#[test]
fn waydroid_declined_prompt_is_a_skip_not_an_execution() {
    let tool = "waydroid".to_string();
    let c = step_ctx(quiet_config(), Some("sudo"));
    assert_eq!(
        waydroid_upgrade(&c, &tool, false).unwrap_err(),
        TopgradeError::SkipStep
    );
    let plan = waydroid_upgrade(&c, &tool, true).unwrap();
    assert_eq!(plan.len(), 1);
    assert_eq!(plan[0].program, "sudo");
    assert_eq!(plan[0].args, ["waydroid", "upgrade"]);
}

#[test]
fn pacstall_takes_no_prompt_under_its_scope() {
    let tool = "pacstall".to_string();
    let plan = topgrade::steps::run_pacstall(&step_ctx(quiet_config(), None), Some(&tool)).unwrap();
    assert_eq!(plan[0].args, ["-U"]);
    assert_eq!(plan[1].args, ["-Up"]);
    let mut config = quiet_config();
    config.yes_steps = vec![Step::Pacstall];
    let plan = topgrade::steps::run_pacstall(&step_ctx(config, None), Some(&tool)).unwrap();
    assert_eq!(plan[0].args, ["-P", "-U"]);
    assert_eq!(plan[1].args, ["-P", "-Up"]);
}

#[test]
fn packer_nu_sets_the_environment() {
    let nu = "nu".to_string();
    let home = "/home/u/.local/share/nushell/packer".to_string();
    let plan =
        topgrade::steps::run_packer_nu(&step_ctx(quiet_config(), None), Some(&nu), &home, true)
            .unwrap();
    assert_eq!(plan.len(), 1);
    assert_eq!(plan[0].program, "nu");
    assert_eq!(plan[0].args[0], "-c");
    assert_eq!(
        plan[0].env_set,
        [
            ("PWD".to_string(), "/".to_string()),
            ("NU_PACKER_HOME".to_string(), home.clone())
        ]
    );
    assert_eq!(
        topgrade::steps::run_packer_nu(&step_ctx(quiet_config(), None), Some(&nu), &home, false)
            .unwrap_err(),
        TopgradeError::ToolMissing
    );
}

#[test]
fn appman_and_protonup_and_cpufreq_and_spices_plans() {
    let c = step_ctx(quiet_config(), Some("sudo"));
    let appman = "appman".to_string();
    let plan = topgrade::steps::run_appman(&c, Some(&appman)).unwrap();
    assert_eq!(plan[0].args, ["-u"]);
    let protonup = "protonup".to_string();
    let plan = topgrade::steps::run_protonup_update(&c, Some(&protonup)).unwrap();
    assert!(plan[0].args.is_empty());
    let mut config = quiet_config();
    config.yes_steps = vec![Step::Protonup];
    let plan = topgrade::steps::run_protonup_update(&step_ctx(config, None), Some(&protonup))
        .unwrap();
    assert_eq!(plan[0].args, ["--yes"]);
    let cpufreq = "auto-cpufreq".to_string();
    let plan = topgrade::steps::run_auto_cpufreq(&c, Some(&cpufreq)).unwrap();
    assert_eq!(plan[0].program, "sudo");
    assert_eq!(plan[0].args, ["auto-cpufreq", "--update"]);
    let spices = "cinnamon-spice-updater".to_string();
    let plan = topgrade::steps::run_cinnamon_spices_updater(&c, Some(&spices)).unwrap();
    assert_eq!(plan[0].program, "cinnamon-spice-updater");
    assert_eq!(plan[0].args, ["--update-all"]);
}

#[test]
fn pihole_needs_its_script_on_disk() {
    let c = step_ctx(quiet_config(), Some("sudo"));
    let pihole = "pihole".to_string();
    assert_eq!(
        topgrade::steps::run_pihole_update(&c, Some(&pihole), false).unwrap_err(),
        TopgradeError::ToolMissing
    );
    let plan = topgrade::steps::run_pihole_update(&c, Some(&pihole), true).unwrap();
    assert_eq!(plan[0].args, ["pihole", "-up"]);
}
