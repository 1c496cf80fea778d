//! The standalone upgrade steps that run beside the distribution
//! procedure: each builds its plan from the policy and the probe facts
//! the caller gathered, and the two steps that inspect captured output
//! split into a probe builder and a verified decision on the output.

use vstd::prelude::*;

use crate::config::{ExecutionContext, Step};
use crate::distribution::Distribution;
use crate::exec::{cmd, cmd_views, CmdView, ExecutionRequest};
use crate::text::{contains_str, contains_sub, line_seqs, split_lines, views_of};
use crate::upgrade::{apt_is_nala, opt_owned_view, opt_view, plan_result_views};
use crate::TopgradeError;

verus! {

/// The application-store helper: update, upgrade, and a policy-gated
/// clean whose noisy output is captured rather than shown.
pub open spec fn spec_run_deb_get(deb_get: Option<Seq<char>>, cleanup: bool) -> Result<
    Seq<CmdView>,
    TopgradeError,
> {
    match deb_get {
        None => Err(TopgradeError::ToolMissing),
        Some(d) => {
            let main = seq![cmd(d, seq!["update"@]), cmd(d, seq!["upgrade"@])];
            Ok(
                if cleanup {
                    main.push(CmdView { capture: true, ..cmd(d, seq!["clean"@]) })
                } else {
                    main
                },
            )
        },
    }
}

/// The application-store helper step.
pub fn run_deb_get(ctx: &ExecutionContext, deb_get: Option<&String>) -> (r: Result<
    Vec<ExecutionRequest>,
    TopgradeError,
>)
    ensures
        plan_result_views(r) == spec_run_deb_get(opt_view(deb_get), ctx.config.cleanup),
{
    let deb_get = match deb_get {
        Some(d) => d,
        None => {
            return Err(TopgradeError::ToolMissing);
        },
    };
    let mut update = ExecutionRequest::new_string(deb_get);
    update.arg("update");
    let mut upgrade = ExecutionRequest::new_string(deb_get);
    upgrade.arg("upgrade");
    let mut p: Vec<ExecutionRequest> = Vec::new();
    p.push(update);
    p.push(upgrade);
    if ctx.config.cleanup {
        // The clean subcommand's output is noisy and useless on
        // success, so it is captured instead of shown.
        let mut clean = ExecutionRequest::new_string(deb_get);
        clean.arg("clean");
        clean.capture_output();
        p.push(clean);
    }
    proof {
        assert(cmd_views(p@) =~~= spec_run_deb_get(
            opt_view(Some(deb_get)),
            ctx.config.cleanup,
        ).unwrap());
    }
    Ok(p)
}

/// The application manager step: one call, forced or interactive update
/// by its own assume-yes scope.
pub open spec fn spec_run_am(am: Option<Seq<char>>, yes: bool) -> Result<
    Seq<CmdView>,
    TopgradeError,
> {
    match am {
        None => Err(TopgradeError::ToolMissing),
        Some(a) => Ok(
            seq![
                cmd(
                    a,
                    seq![
                        if yes {
                            "-U"@
                        } else {
                            "-u"@
                        },
                    ],
                ),
            ],
        ),
    }
}

/// The application manager step.
pub fn run_am(ctx: &ExecutionContext, am: Option<&String>) -> (r: Result<
    Vec<ExecutionRequest>,
    TopgradeError,
>)
    ensures
        plan_result_views(r) == spec_run_am(opt_view(am), ctx.config.spec_yes(Step::AM)),
{
    let am = match am {
        Some(a) => a,
        None => {
            return Err(TopgradeError::ToolMissing);
        },
    };
    let mut up = ExecutionRequest::new_string(am);
    if ctx.config.yes(Step::AM) {
        up.arg("-U");
    } else {
        up.arg("-u");
    }
    let mut p: Vec<ExecutionRequest> = Vec::new();
    p.push(up);
    proof {
        assert(cmd_views(p@) =~~= spec_run_am(
            opt_view(Some(am)),
            ctx.config.spec_yes(Step::AM),
        ).unwrap());
    }
    Ok(p)
}

/// The per-user application manager step: one unconditional update.
pub open spec fn spec_run_appman(appman: Option<Seq<char>>) -> Result<
    Seq<CmdView>,
    TopgradeError,
> {
    match appman {
        None => Err(TopgradeError::ToolMissing),
        Some(a) => Ok(seq![cmd(a, seq!["-u"@])]),
    }
}

/// The per-user application manager step.
pub fn run_appman(ctx: &ExecutionContext, appman: Option<&String>) -> (r: Result<
    Vec<ExecutionRequest>,
    TopgradeError,
>)
    ensures
        plan_result_views(r) == spec_run_appman(opt_view(appman)),
{
    let _ = ctx;
    let appman = match appman {
        Some(a) => a,
        None => {
            return Err(TopgradeError::ToolMissing);
        },
    };
    let mut up = ExecutionRequest::new_string(appman);
    up.arg("-u");
    let mut p: Vec<ExecutionRequest> = Vec::new();
    p.push(up);
    proof {
        assert(cmd_views(p@) =~~= spec_run_appman(opt_view(Some(appman))).unwrap());
    }
    Ok(p)
}

/// The declarative package manager step opens with a capturing version
/// probe; the procedure itself then depends on which interface
/// generation the probe reports.
pub open spec fn spec_run_pacdef(pacdef: Option<Seq<char>>) -> Result<CmdView, TopgradeError> {
    match pacdef {
        None => Err(TopgradeError::ToolMissing),
        Some(p) => Ok(CmdView { capture: true, ..cmd(p, seq!["version"@]) }),
    }
}

/// Opens the declarative package manager step: the capturing probe whose
/// output names the tool's interface generation.
pub fn run_pacdef(ctx: &ExecutionContext, pacdef: Option<&String>) -> (r: Result<
    ExecutionRequest,
    TopgradeError,
>)
    ensures
        match r {
            Ok(req) => Ok::<CmdView, TopgradeError>(req@) == spec_run_pacdef(opt_view(pacdef)),
            Err(e) => pacdef is None && e == TopgradeError::ToolMissing,
        },
{
    let _ = ctx;
    let pacdef = match pacdef {
        Some(p) => p,
        None => {
            return Err(TopgradeError::ToolMissing);
        },
    };
    let mut probe = ExecutionRequest::new_string(pacdef);
    probe.arg("version");
    probe.capture_output();
    proof {
        assert(probe@ =~~= spec_run_pacdef(opt_view(Some(pacdef))).unwrap());
    }
    Ok(probe)
}

/// The declarative package manager procedure: the newer interface
/// generation nests sync and review under a package group, the older one
/// calls them directly; either way sync takes no-confirm when assume-yes
/// is in force and a review closes the step.
pub open spec fn spec_pacdef_procedure(
    pacdef: Seq<char>,
    new_version: bool,
    yes: bool,
) -> Seq<CmdView> {
    if new_version {
        let sync = seq!["package"@, "sync"@];
        seq![
            cmd(
                pacdef,
                if yes {
                    sync.push("--noconfirm"@)
                } else {
                    sync
                },
            ),
            cmd(pacdef, seq!["package"@, "review"@]),
        ]
    } else {
        let sync = seq!["sync"@];
        seq![
            cmd(
                pacdef,
                if yes {
                    sync.push("--noconfirm"@)
                } else {
                    sync
                },
            ),
            cmd(pacdef, seq!["review"@]),
        ]
    }
}

/// Whether the version probe's output names the newer interface
/// generation.
pub open spec fn spec_pacdef_is_new(version_output: Seq<char>) -> bool {
    contains_sub(version_output, "version: 1"@)
}

/// Builds the declarative package manager procedure from the version
/// probe's captured output.
pub fn pacdef_procedure(ctx: &ExecutionContext, pacdef: &String, version_output: &str) -> (r: Vec<
    ExecutionRequest,
>)
    ensures
        cmd_views(r@) == spec_pacdef_procedure(
            pacdef@,
            spec_pacdef_is_new(version_output@),
            ctx.config.spec_yes(Step::System),
        ),
{
    let new_version = contains_str(version_output, "version: 1");
    let mut p: Vec<ExecutionRequest> = Vec::new();
    if new_version {
        let mut sync = ExecutionRequest::new_string(pacdef);
        sync.arg("package");
        sync.arg("sync");
        if ctx.config.yes(Step::System) {
            sync.arg("--noconfirm");
        }
        p.push(sync);
        let mut review = ExecutionRequest::new_string(pacdef);
        review.arg("package");
        review.arg("review");
        p.push(review);
    } else {
        let mut sync = ExecutionRequest::new_string(pacdef);
        sync.arg("sync");
        if ctx.config.yes(Step::System) {
            sync.arg("--noconfirm");
        }
        p.push(sync);
        let mut review = ExecutionRequest::new_string(pacdef);
        review.arg("review");
        p.push(review);
    }
    proof {
        assert(cmd_views(p@) =~~= spec_pacdef_procedure(
            pacdef@,
            spec_pacdef_is_new(version_output@),
            ctx.config.spec_yes(Step::System),
        ));
    }
    p
}

/// The user-repository helper step: an update of the helper itself and
/// an upgrade of its packages, each taking the no-prompt flag first when
/// its own assume-yes scope is in force.
pub open spec fn spec_run_pacstall(pacstall: Option<Seq<char>>, yes: bool) -> Result<
    Seq<CmdView>,
    TopgradeError,
> {
    match pacstall {
        None => Err(TopgradeError::ToolMissing),
        Some(p) => {
            let head = if yes {
                seq!["-P"@]
            } else {
                Seq::empty()
            };
            Ok(seq![cmd(p, head.push("-U"@)), cmd(p, head.push("-Up"@))])
        },
    }
}

/// The user-repository helper step.
pub fn run_pacstall(ctx: &ExecutionContext, pacstall: Option<&String>) -> (r: Result<
    Vec<ExecutionRequest>,
    TopgradeError,
>)
    ensures
        plan_result_views(r) == spec_run_pacstall(
            opt_view(pacstall),
            ctx.config.spec_yes(Step::Pacstall),
        ),
{
    let pacstall = match pacstall {
        Some(p) => p,
        None => {
            return Err(TopgradeError::ToolMissing);
        },
    };
    let mut update = ExecutionRequest::new_string(pacstall);
    let mut upgrade = ExecutionRequest::new_string(pacstall);
    if ctx.config.yes(Step::Pacstall) {
        update.arg("-P");
        upgrade.arg("-P");
    }
    update.arg("-U");
    upgrade.arg("-Up");
    let mut p: Vec<ExecutionRequest> = Vec::new();
    p.push(update);
    p.push(upgrade);
    proof {
        assert(cmd_views(p@) =~~= spec_run_pacstall(
            opt_view(Some(pacstall)),
            ctx.config.spec_yes(Step::Pacstall),
        ).unwrap());
    }
    Ok(p)
}

/// The shell package manager step: one scripted update run with a fixed
/// working directory and the package home handed through the
/// environment.
pub open spec fn spec_run_packer_nu(
    nu: Option<Seq<char>>,
    packer_home: Seq<char>,
    home_exists: bool,
) -> Result<Seq<CmdView>, TopgradeError> {
    match nu {
        None => Err(TopgradeError::ToolMissing),
        Some(n) => {
            if !home_exists {
                Err(TopgradeError::ToolMissing)
            } else {
                Ok(
                    seq![
                        CmdView {
                            env_set: seq![
                                ("PWD"@, "/"@),
                                ("NU_PACKER_HOME"@, packer_home),
                            ],
                            ..cmd(
                                n,
                                seq![
                                    "-c"@,
                                    "use ~/.local/share/nushell/packer/start/packer.nu/api_layer/packer.nu; packer update"@,
                                ],
                            )
                        },
                    ],
                )
            }
        },
    }
}

/// The shell package manager step. `packer_home` is the caller's package
/// home path and `home_exists` whether it stands on disk.
pub fn run_packer_nu(
    ctx: &ExecutionContext,
    nu: Option<&String>,
    packer_home: &String,
    home_exists: bool,
) -> (r: Result<Vec<ExecutionRequest>, TopgradeError>)
    ensures
        plan_result_views(r) == spec_run_packer_nu(opt_view(nu), packer_home@, home_exists),
{
    let _ = ctx;
    let nu = match nu {
        Some(n) => n,
        None => {
            return Err(TopgradeError::ToolMissing);
        },
    };
    if !home_exists {
        return Err(TopgradeError::ToolMissing);
    }
    let mut up = ExecutionRequest::new_string(nu);
    up.env("PWD", "/");
    up.env("NU_PACKER_HOME", packer_home.as_str());
    up.arg("-c");
    up.arg("use ~/.local/share/nushell/packer/start/packer.nu/api_layer/packer.nu; packer update");
    let mut p: Vec<ExecutionRequest> = Vec::new();
    p.push(up);
    proof {
        assert(cmd_views(p@) =~~= spec_run_packer_nu(
            opt_view(Some(nu)),
            packer_home@,
            home_exists,
        ).unwrap());
    }
    Ok(p)
}

/// Whether the restart-check step must be passed over: always on the
/// RedHat family, whose package manager runs it itself, and on the
/// Debian family when the selected apt front-end folds the check into
/// its own upgrade.
pub open spec fn spec_skip_needrestart(
    distribution: Distribution,
    apt_fast: Option<Seq<char>>,
    mist: bool,
    nala: bool,
) -> bool {
    ||| distribution == Distribution::CentOS
    ||| distribution == Distribution::Fedora
    ||| (distribution == Distribution::Debian && apt_is_nala(apt_fast, mist, nala))
}

/// Decides whether the restart-check step must be passed over.
pub fn should_skip_needrestart(
    distribution: Distribution,
    apt_fast: Option<&String>,
    mist: bool,
    nala: bool,
) -> (r: Result<(), TopgradeError>)
    ensures
        r is Ok <==> !spec_skip_needrestart(distribution, opt_view(apt_fast), mist, nala),
        r is Err ==> r == Err::<(), TopgradeError>(TopgradeError::SkipStep),
{
    if distribution.redhat_based() {
        return Err(TopgradeError::SkipStep);
    }
    if matches!(distribution, Distribution::Debian) {
        let is_nala = apt_fast.is_none() && !mist && nala;
        if is_nala {
            return Err(TopgradeError::SkipStep);
        }
    }
    Ok(())
}

/// The restart-check step: skipped outright where the package manager
/// already performs it, else one elevated call.
pub open spec fn spec_run_needrestart(
    sudo: Option<Seq<char>>,
    needrestart: Option<Seq<char>>,
    skip: bool,
) -> Result<Seq<CmdView>, TopgradeError> {
    match sudo {
        None => Err(TopgradeError::SudoRequired),
        Some(s) => match needrestart {
            None => Err(TopgradeError::ToolMissing),
            Some(n) => {
                if skip {
                    Err(TopgradeError::SkipStep)
                } else {
                    Ok(seq![cmd(s, seq![n])])
                }
            },
        },
    }
}

/// The restart-check step.
pub fn run_needrestart(
    ctx: &ExecutionContext,
    needrestart: Option<&String>,
    distribution: Distribution,
    apt_fast: Option<&String>,
    mist: bool,
    nala: bool,
) -> (r: Result<Vec<ExecutionRequest>, TopgradeError>)
    ensures
        plan_result_views(r) == spec_run_needrestart(
            opt_owned_view(ctx.sudo),
            opt_view(needrestart),
            spec_skip_needrestart(distribution, opt_view(apt_fast), mist, nala),
        ),
{
    let sudo = match &ctx.sudo {
        Some(s) => s,
        None => {
            return Err(TopgradeError::SudoRequired);
        },
    };
    let needrestart = match needrestart {
        Some(n) => n,
        None => {
            return Err(TopgradeError::ToolMissing);
        },
    };
    if let Err(e) = should_skip_needrestart(distribution, apt_fast, mist, nala) {
        return Err(e);
    }
    let mut check = ExecutionRequest::new_string(sudo);
    check.arg_string(needrestart);
    let mut p: Vec<ExecutionRequest> = Vec::new();
    p.push(check);
    proof {
        assert(cmd_views(p@) =~~= spec_run_needrestart(
            opt_owned_view(ctx.sudo),
            opt_view(Some(needrestart)),
            spec_skip_needrestart(distribution, opt_view(apt_fast), mist, nala),
        ).unwrap());
    }
    Ok(p)
}

/// The firmware manager step: skipped inside the compatibility
/// environment; a refresh tolerating the benign already-refreshed exit
/// code, then either a real update or only a listing, the second call
/// tolerating the same code.
pub open spec fn spec_run_fwupdmgr(
    fwupdmgr: Option<Seq<char>>,
    wsl: bool,
    firmware_upgrade: bool,
    yes: bool,
) -> Result<Seq<CmdView>, TopgradeError> {
    match fwupdmgr {
        None => Err(TopgradeError::ToolMissing),
        Some(f) => {
            if wsl {
                Err(TopgradeError::SkipStep)
            } else {
                let second = if firmware_upgrade {
                    let up = seq!["update"@];
                    if yes {
                        up.push("-y"@)
                    } else {
                        up
                    }
                } else {
                    seq!["get-updates"@]
                };
                Ok(
                    seq![
                        CmdView { ok_codes: seq![2i32], ..cmd(f, seq!["refresh"@]) },
                        CmdView { ok_codes: seq![2i32], ..cmd(f, second) },
                    ],
                )
            }
        },
    }
}

/// The firmware manager step.
pub fn run_fwupdmgr(ctx: &ExecutionContext, fwupdmgr: Option<&String>, wsl: bool) -> (r: Result<
    Vec<ExecutionRequest>,
    TopgradeError,
>)
    ensures
        plan_result_views(r) == spec_run_fwupdmgr(
            opt_view(fwupdmgr),
            wsl,
            ctx.config.firmware_upgrade,
            ctx.config.spec_yes(Step::System),
        ),
{
    let fwupdmgr = match fwupdmgr {
        Some(f) => f,
        None => {
            return Err(TopgradeError::ToolMissing);
        },
    };
    if wsl {
        return Err(TopgradeError::SkipStep);
    }
    let mut refresh = ExecutionRequest::new_string(fwupdmgr);
    refresh.arg("refresh");
    // Exit code 2 is the tool's benign nothing-to-refresh code.
    refresh.ok_code(2);
    let mut second = ExecutionRequest::new_string(fwupdmgr);
    if ctx.config.firmware_upgrade {
        second.arg("update");
        if ctx.config.yes(Step::System) {
            second.arg("-y");
        }
    } else {
        second.arg("get-updates");
    }
    second.ok_code(2);
    let mut p: Vec<ExecutionRequest> = Vec::new();
    p.push(refresh);
    p.push(second);
    proof {
        assert(cmd_views(p@) =~~= spec_run_fwupdmgr(
            opt_view(Some(fwupdmgr)),
            wsl,
            ctx.config.firmware_upgrade,
            ctx.config.spec_yes(Step::System),
        ).unwrap());
    }
    Ok(p)
}

/// The sandboxed application step: update and policy-gated unused
/// removal for the per-user installation, then the same for the
/// system-wide installation, elevated when the policy or a remote
/// session asks for it.
pub open spec fn spec_run_flatpak(
    sudo: Option<Seq<char>>,
    flatpak: Option<Seq<char>>,
    yes: bool,
    cleanup: bool,
    use_sudo: bool,
) -> Result<Seq<CmdView>, TopgradeError> {
    match flatpak {
        None => Err(TopgradeError::ToolMissing),
        Some(f) => match sudo {
            None => Err(TopgradeError::SudoRequired),
            Some(s) => {
                let user_update = seq!["update"@, "--user"@];
                let user_clean = seq!["uninstall"@, "--user"@, "--unused"@];
                let sys_update = seq!["update"@, "--system"@];
                let sys_clean = seq!["uninstall"@, "--system"@, "--unused"@];
                let user = if cleanup {
                    seq![
                        cmd(
                            f,
                            if yes {
                                user_update.push("-y"@)
                            } else {
                                user_update
                            },
                        ),
                        cmd(
                            f,
                            if yes {
                                user_clean.push("-y"@)
                            } else {
                                user_clean
                            },
                        ),
                    ]
                } else {
                    seq![
                        cmd(
                            f,
                            if yes {
                                user_update.push("-y"@)
                            } else {
                                user_update
                            },
                        ),
                    ]
                };
                let system = if use_sudo {
                    let up = cmd(s, seq![f] + (if yes {
                        sys_update.push("-y"@)
                    } else {
                        sys_update
                    }));
                    if cleanup {
                        seq![
                            up,
                            cmd(s, seq![f] + (if yes {
                                sys_clean.push("-y"@)
                            } else {
                                sys_clean
                            })),
                        ]
                    } else {
                        seq![up]
                    }
                } else {
                    let up = cmd(f, if yes {
                        sys_update.push("-y"@)
                    } else {
                        sys_update
                    });
                    if cleanup {
                        seq![
                            up,
                            cmd(f, if yes {
                                sys_clean.push("-y"@)
                            } else {
                                sys_clean
                            }),
                        ]
                    } else {
                        seq![up]
                    }
                };
                Ok(user + system)
            },
        },
    }
}

/// The sandboxed application step. `ssh_session` reports whether the
/// run came in over a remote session, which forces the elevated
/// system-wide path just as the policy flag does.
pub fn run_flatpak(ctx: &ExecutionContext, flatpak: Option<&String>, ssh_session: bool) -> (r:
    Result<Vec<ExecutionRequest>, TopgradeError>)
    ensures
        plan_result_views(r) == spec_run_flatpak(
            opt_owned_view(ctx.sudo),
            opt_view(flatpak),
            ctx.config.spec_yes(Step::Flatpak),
            ctx.config.cleanup,
            ctx.config.flatpak_use_sudo || ssh_session,
        ),
{
    let flatpak = match flatpak {
        Some(f) => f,
        None => {
            return Err(TopgradeError::ToolMissing);
        },
    };
    let sudo = match &ctx.sudo {
        Some(s) => s,
        None => {
            return Err(TopgradeError::SudoRequired);
        },
    };
    let yes = ctx.config.yes(Step::Flatpak);
    let cleanup = ctx.config.cleanup;
    let mut p: Vec<ExecutionRequest> = Vec::new();
    let mut user_update = ExecutionRequest::new_string(flatpak);
    user_update.arg("update");
    user_update.arg("--user");
    if yes {
        user_update.arg("-y");
    }
    p.push(user_update);
    if cleanup {
        let mut user_clean = ExecutionRequest::new_string(flatpak);
        user_clean.arg("uninstall");
        user_clean.arg("--user");
        user_clean.arg("--unused");
        if yes {
            user_clean.arg("-y");
        }
        p.push(user_clean);
    }
    if ctx.config.flatpak_use_sudo || ssh_session {
        let mut sys_update = ExecutionRequest::new_string(sudo);
        sys_update.arg_string(flatpak);
        sys_update.arg("update");
        sys_update.arg("--system");
        if yes {
            sys_update.arg("-y");
        }
        p.push(sys_update);
        if cleanup {
            let mut sys_clean = ExecutionRequest::new_string(sudo);
            sys_clean.arg_string(flatpak);
            sys_clean.arg("uninstall");
            sys_clean.arg("--system");
            sys_clean.arg("--unused");
            if yes {
                sys_clean.arg("-y");
            }
            p.push(sys_clean);
        }
    } else {
        let mut sys_update = ExecutionRequest::new_string(flatpak);
        sys_update.arg("update");
        sys_update.arg("--system");
        if yes {
            sys_update.arg("-y");
        }
        p.push(sys_update);
        if cleanup {
            let mut sys_clean = ExecutionRequest::new_string(flatpak);
            sys_clean.arg("uninstall");
            sys_clean.arg("--system");
            sys_clean.arg("--unused");
            if yes {
                sys_clean.arg("-y");
            }
            p.push(sys_clean);
        }
    }
    proof {
        assert(cmd_views(p@) =~~= spec_run_flatpak(
            opt_owned_view(ctx.sudo),
            opt_view(Some(flatpak)),
            ctx.config.spec_yes(Step::Flatpak),
            ctx.config.cleanup,
            ctx.config.flatpak_use_sudo || ssh_session,
        ).unwrap());
    }
    Ok(p)
}

/// The snap step: skipped while the managing daemon's socket is absent,
/// else one elevated refresh.
pub open spec fn spec_run_snap(
    sudo: Option<Seq<char>>,
    snap: Option<Seq<char>>,
    socket_exists: bool,
) -> Result<Seq<CmdView>, TopgradeError> {
    match sudo {
        None => Err(TopgradeError::SudoRequired),
        Some(s) => match snap {
            None => Err(TopgradeError::ToolMissing),
            Some(n) => {
                if !socket_exists {
                    Err(TopgradeError::SkipStep)
                } else {
                    Ok(seq![cmd(s, seq![n, "refresh"@])])
                }
            },
        },
    }
}

/// The snap step. `socket_exists` reports whether either of the
/// daemon's well-known socket paths stands on disk.
pub fn run_snap(ctx: &ExecutionContext, snap: Option<&String>, socket_exists: bool) -> (r: Result<
    Vec<ExecutionRequest>,
    TopgradeError,
>)
    ensures
        plan_result_views(r) == spec_run_snap(
            opt_owned_view(ctx.sudo),
            opt_view(snap),
            socket_exists,
        ),
{
    let sudo = match &ctx.sudo {
        Some(s) => s,
        None => {
            return Err(TopgradeError::SudoRequired);
        },
    };
    let snap = match snap {
        Some(n) => n,
        None => {
            return Err(TopgradeError::ToolMissing);
        },
    };
    if !socket_exists {
        return Err(TopgradeError::SkipStep);
    }
    let mut refresh = ExecutionRequest::new_string(sudo);
    refresh.arg_string(snap);
    refresh.arg("refresh");
    let mut p: Vec<ExecutionRequest> = Vec::new();
    p.push(refresh);
    proof {
        assert(cmd_views(p@) =~~= spec_run_snap(
            opt_owned_view(ctx.sudo),
            opt_view(Some(snap)),
            socket_exists,
        ).unwrap());
    }
    Ok(p)
}

/// The ad-blocker step: its update script must stand at its fixed path,
/// then one elevated self-update.
pub open spec fn spec_run_pihole_update(
    sudo: Option<Seq<char>>,
    pihole: Option<Seq<char>>,
    script_exists: bool,
) -> Result<Seq<CmdView>, TopgradeError> {
    match sudo {
        None => Err(TopgradeError::SudoRequired),
        Some(s) => match pihole {
            None => Err(TopgradeError::ToolMissing),
            Some(p) => {
                if !script_exists {
                    Err(TopgradeError::ToolMissing)
                } else {
                    Ok(seq![cmd(s, seq![p, "-up"@])])
                }
            },
        },
    }
}

/// The ad-blocker step. `script_exists` reports whether the tool's
/// update script stands at its fixed path.
pub fn run_pihole_update(ctx: &ExecutionContext, pihole: Option<&String>, script_exists: bool) -> (r:
    Result<Vec<ExecutionRequest>, TopgradeError>)
    ensures
        plan_result_views(r) == spec_run_pihole_update(
            opt_owned_view(ctx.sudo),
            opt_view(pihole),
            script_exists,
        ),
{
    let sudo = match &ctx.sudo {
        Some(s) => s,
        None => {
            return Err(TopgradeError::SudoRequired);
        },
    };
    let pihole = match pihole {
        Some(p) => p,
        None => {
            return Err(TopgradeError::ToolMissing);
        },
    };
    if !script_exists {
        return Err(TopgradeError::ToolMissing);
    }
    let mut up = ExecutionRequest::new_string(sudo);
    up.arg_string(pihole);
    up.arg("-up");
    let mut p: Vec<ExecutionRequest> = Vec::new();
    p.push(up);
    proof {
        assert(cmd_views(p@) =~~= spec_run_pihole_update(
            opt_owned_view(ctx.sudo),
            opt_view(Some(pihole)),
            script_exists,
        ).unwrap());
    }
    Ok(p)
}

/// The compatibility-tool manager step: one call, non-interactive when
/// its own assume-yes scope is in force.
pub open spec fn spec_run_protonup_update(protonup: Option<Seq<char>>, yes: bool) -> Result<
    Seq<CmdView>,
    TopgradeError,
> {
    match protonup {
        None => Err(TopgradeError::ToolMissing),
        Some(p) => Ok(
            seq![
                cmd(
                    p,
                    if yes {
                        seq!["--yes"@]
                    } else {
                        Seq::empty()
                    },
                ),
            ],
        ),
    }
}

/// The compatibility-tool manager step.
pub fn run_protonup_update(ctx: &ExecutionContext, protonup: Option<&String>) -> (r: Result<
    Vec<ExecutionRequest>,
    TopgradeError,
>)
    ensures
        plan_result_views(r) == spec_run_protonup_update(
            opt_view(protonup),
            ctx.config.spec_yes(Step::Protonup),
        ),
{
    let protonup = match protonup {
        Some(p) => p,
        None => {
            return Err(TopgradeError::ToolMissing);
        },
    };
    let mut up = ExecutionRequest::new_string(protonup);
    if ctx.config.yes(Step::Protonup) {
        up.arg("--yes");
    }
    let mut p: Vec<ExecutionRequest> = Vec::new();
    p.push(up);
    proof {
        assert(cmd_views(p@) =~~= spec_run_protonup_update(
            opt_view(Some(protonup)),
            ctx.config.spec_yes(Step::Protonup),
        ).unwrap());
    }
    Ok(p)
}

/// The container-manager step: an upgrade of the configured containers
/// (naming at least one when a list is given at all) or of all of them,
/// as root when the policy says so.
pub open spec fn spec_run_distrobox_update(
    distrobox: Option<Seq<char>>,
    containers: Option<Seq<String>>,
    root: bool,
) -> Result<Seq<CmdView>, TopgradeError> {
    match distrobox {
        None => Err(TopgradeError::ToolMissing),
        Some(d) => {
            let scope = match containers {
                Some(c) => {
                    if c.len() == 0 {
                        None
                    } else {
                        Some(seq!["upgrade"@] + views_of(c))
                    }
                },
                None => Some(seq!["upgrade"@, "--all"@]),
            };
            match scope {
                None => Err(TopgradeError::SkipStep),
                Some(args) => Ok(
                    seq![
                        cmd(
                            d,
                            if root {
                                args.push("--root"@)
                            } else {
                                args
                            },
                        ),
                    ],
                ),
            }
        },
    }
}

/// The container-manager step.
pub fn run_distrobox_update(ctx: &ExecutionContext, distrobox: Option<&String>) -> (r: Result<
    Vec<ExecutionRequest>,
    TopgradeError,
>)
    ensures
        plan_result_views(r) == spec_run_distrobox_update(
            opt_view(distrobox),
            match ctx.config.distrobox_containers {
                Some(ref c) => Some(c@),
                None => None,
            },
            ctx.config.distrobox_root,
        ),
{
    let distrobox = match distrobox {
        Some(d) => d,
        None => {
            return Err(TopgradeError::ToolMissing);
        },
    };
    let mut up = ExecutionRequest::new_string(distrobox);
    up.arg("upgrade");
    match &ctx.config.distrobox_containers {
        Some(c) => {
            if c.len() == 0 {
                return Err(TopgradeError::SkipStep);
            }
            up.args_list(c);
        },
        None => {
            up.arg("--all");
        },
    }
    if ctx.config.distrobox_root {
        up.arg("--root");
    }
    let mut p: Vec<ExecutionRequest> = Vec::new();
    p.push(up);
    proof {
        assert(cmd_views(p@) =~~= spec_run_distrobox_update(
            opt_view(Some(distrobox)),
            match ctx.config.distrobox_containers {
                Some(ref c) => Some(c@),
                None => None,
            },
            ctx.config.distrobox_root,
        ).unwrap());
    }
    Ok(p)
}

/// The console-development package manager step: one elevated full sync,
/// then a policy-gated cache clean.
pub open spec fn spec_run_dkp_pacman_update(
    sudo: Option<Seq<char>>,
    dkp_pacman: Option<Seq<char>>,
    cleanup: bool,
) -> Result<Seq<CmdView>, TopgradeError> {
    match sudo {
        None => Err(TopgradeError::SudoRequired),
        Some(s) => match dkp_pacman {
            None => Err(TopgradeError::ToolMissing),
            Some(d) => {
                let head = seq![cmd(s, seq![d, "-Syu"@])];
                Ok(
                    if cleanup {
                        head.push(cmd(s, seq![d, "-Scc"@]))
                    } else {
                        head
                    },
                )
            },
        },
    }
}

/// The console-development package manager step.
pub fn run_dkp_pacman_update(ctx: &ExecutionContext, dkp_pacman: Option<&String>) -> (r: Result<
    Vec<ExecutionRequest>,
    TopgradeError,
>)
    ensures
        plan_result_views(r) == spec_run_dkp_pacman_update(
            opt_owned_view(ctx.sudo),
            opt_view(dkp_pacman),
            ctx.config.cleanup,
        ),
{
    let sudo = match &ctx.sudo {
        Some(s) => s,
        None => {
            return Err(TopgradeError::SudoRequired);
        },
    };
    let dkp = match dkp_pacman {
        Some(d) => d,
        None => {
            return Err(TopgradeError::ToolMissing);
        },
    };
    let mut sync = ExecutionRequest::new_string(sudo);
    sync.arg_string(dkp);
    sync.arg("-Syu");
    let mut p: Vec<ExecutionRequest> = Vec::new();
    p.push(sync);
    if ctx.config.cleanup {
        let mut clean = ExecutionRequest::new_string(sudo);
        clean.arg_string(dkp);
        clean.arg("-Scc");
        p.push(clean);
    }
    proof {
        assert(cmd_views(p@) =~~= spec_run_dkp_pacman_update(
            opt_owned_view(ctx.sudo),
            opt_view(Some(dkp)),
            ctx.config.cleanup,
        ).unwrap());
    }
    Ok(p)
}

/// The configuration-file merge step: interactive by nature, so it is
/// skipped outright under a blanket assume-yes; the first merge tool
/// found wins, and the fallback tool needs a diff program — the
/// environment's or the default editor.
pub open spec fn spec_run_config_update(
    sudo: Option<Seq<char>>,
    etc_update: Option<Seq<char>>,
    pacdiff: Option<Seq<char>>,
    diffprog_set: bool,
    vim: Option<Seq<char>>,
    yes: bool,
) -> Result<Seq<CmdView>, TopgradeError> {
    match sudo {
        None => Err(TopgradeError::SudoRequired),
        Some(s) => {
            if yes {
                Err(TopgradeError::SkipStep)
            } else {
                match etc_update {
                    Some(e) => Ok(seq![cmd(s, seq![e])]),
                    None => match pacdiff {
                        Some(pd) => {
                            if !diffprog_set && vim is None {
                                Err(TopgradeError::ToolMissing)
                            } else {
                                Ok(seq![cmd(s, seq![pd])])
                            }
                        },
                        None => Ok(Seq::empty()),
                    },
                }
            }
        },
    }
}

/// The configuration-file review step. `diffprog_set` reports whether
/// the environment names a diff program of its own.
pub fn run_config_update(
    ctx: &ExecutionContext,
    etc_update: Option<&String>,
    pacdiff: Option<&String>,
    diffprog_set: bool,
    vim: Option<&String>,
) -> (r: Result<Vec<ExecutionRequest>, TopgradeError>)
    ensures
        plan_result_views(r) == spec_run_config_update(
            opt_owned_view(ctx.sudo),
            opt_view(etc_update),
            opt_view(pacdiff),
            diffprog_set,
            opt_view(vim),
            ctx.config.spec_yes(Step::ConfigUpdate),
        ),
{
    let sudo = match &ctx.sudo {
        Some(s) => s,
        None => {
            return Err(TopgradeError::SudoRequired);
        },
    };
    if ctx.config.yes(Step::ConfigUpdate) {
        return Err(TopgradeError::SkipStep);
    }
    let mut p: Vec<ExecutionRequest> = Vec::new();
    if let Some(etc_update) = etc_update {
        let mut review = ExecutionRequest::new_string(sudo);
        review.arg_string(etc_update);
        p.push(review);
    } else if let Some(pacdiff) = pacdiff {
        if !diffprog_set && vim.is_none() {
            return Err(TopgradeError::ToolMissing);
        }
        let mut review = ExecutionRequest::new_string(sudo);
        review.arg_string(pacdiff);
        p.push(review);
    }
    proof {
        assert(cmd_views(p@) =~~= spec_run_config_update(
            opt_owned_view(ctx.sudo),
            opt_view(etc_update),
            opt_view(pacdiff),
            diffprog_set,
            opt_view(vim),
            ctx.config.spec_yes(Step::ConfigUpdate),
        ).unwrap());
    }
    Ok(p)
}

/// The user-repository build tool step: one update, non-interactive
/// when its own assume-yes scope is in force.
pub open spec fn spec_run_lure_update(lure: Option<Seq<char>>, yes: bool) -> Result<
    Seq<CmdView>,
    TopgradeError,
> {
    match lure {
        None => Err(TopgradeError::ToolMissing),
        Some(l) => Ok(
            seq![
                cmd(
                    l,
                    if yes {
                        seq!["-i=false"@, "up"@]
                    } else {
                        seq!["up"@]
                    },
                ),
            ],
        ),
    }
}

/// The user-repository build tool step.
pub fn run_lure_update(ctx: &ExecutionContext, lure: Option<&String>) -> (r: Result<
    Vec<ExecutionRequest>,
    TopgradeError,
>)
    ensures
        plan_result_views(r) == spec_run_lure_update(
            opt_view(lure),
            ctx.config.spec_yes(Step::Lure),
        ),
{
    let lure = match lure {
        Some(l) => l,
        None => {
            return Err(TopgradeError::ToolMissing);
        },
    };
    let mut up = ExecutionRequest::new_string(lure);
    if ctx.config.yes(Step::Lure) {
        up.arg("-i=false");
        up.arg("up");
    } else {
        up.arg("up");
    }
    let mut p: Vec<ExecutionRequest> = Vec::new();
    p.push(up);
    proof {
        assert(cmd_views(p@) =~~= spec_run_lure_update(
            opt_view(Some(lure)),
            ctx.config.spec_yes(Step::Lure),
        ).unwrap());
    }
    Ok(p)
}

/// The CPU-governor tool step: one elevated self-update.
pub open spec fn spec_run_auto_cpufreq(
    sudo: Option<Seq<char>>,
    auto_cpufreq: Option<Seq<char>>,
) -> Result<Seq<CmdView>, TopgradeError> {
    match sudo {
        None => Err(TopgradeError::SudoRequired),
        Some(s) => match auto_cpufreq {
            None => Err(TopgradeError::ToolMissing),
            Some(a) => Ok(seq![cmd(s, seq![a, "--update"@])]),
        },
    }
}

/// The CPU-governor tool step.
pub fn run_auto_cpufreq(ctx: &ExecutionContext, auto_cpufreq: Option<&String>) -> (r: Result<
    Vec<ExecutionRequest>,
    TopgradeError,
>)
    ensures
        plan_result_views(r) == spec_run_auto_cpufreq(
            opt_owned_view(ctx.sudo),
            opt_view(auto_cpufreq),
        ),
{
    let sudo = match &ctx.sudo {
        Some(s) => s,
        None => {
            return Err(TopgradeError::SudoRequired);
        },
    };
    let tool = match auto_cpufreq {
        Some(a) => a,
        None => {
            return Err(TopgradeError::ToolMissing);
        },
    };
    let mut up = ExecutionRequest::new_string(sudo);
    up.arg_string(tool);
    up.arg("--update");
    let mut p: Vec<ExecutionRequest> = Vec::new();
    p.push(up);
    proof {
        assert(cmd_views(p@) =~~= spec_run_auto_cpufreq(
            opt_owned_view(ctx.sudo),
            opt_view(Some(tool)),
        ).unwrap());
    }
    Ok(p)
}

/// The desktop-extension updater step: one unelevated update of every
/// installed extension.
pub open spec fn spec_run_cinnamon_spices_updater(updater: Option<Seq<char>>) -> Result<
    Seq<CmdView>,
    TopgradeError,
> {
    match updater {
        None => Err(TopgradeError::ToolMissing),
        Some(u) => Ok(seq![cmd(u, seq!["--update-all"@])]),
    }
}

/// The desktop-extension updater step.
pub fn run_cinnamon_spices_updater(ctx: &ExecutionContext, updater: Option<&String>) -> (r: Result<
    Vec<ExecutionRequest>,
    TopgradeError,
>)
    ensures
        plan_result_views(r) == spec_run_cinnamon_spices_updater(opt_view(updater)),
{
    let _ = ctx;
    let updater = match updater {
        Some(u) => u,
        None => {
            return Err(TopgradeError::ToolMissing);
        },
    };
    let mut up = ExecutionRequest::new_string(updater);
    up.arg("--update-all");
    let mut p: Vec<ExecutionRequest> = Vec::new();
    p.push(up);
    proof {
        assert(cmd_views(p@) =~~= spec_run_cinnamon_spices_updater(opt_view(Some(updater))).unwrap());
    }
    Ok(p)
}

/// First index at or after `i` of a line holding the session marker, or
/// the end of the listing.
pub open spec fn session_idx(ls: Seq<Seq<char>>, i: int) -> int
    decreases ls.len() - i,
{
    if i < 0 || i >= ls.len() || contains_sub(ls[i], "Session:"@) {
        i
    } else {
        session_idx(ls, i + 1)
    }
}

/// Whether the container runtime's status output holds a session line.
pub open spec fn spec_session_found(out: Seq<char>) -> bool {
    session_idx(line_seqs(out), 0) < line_seqs(out).len()
}

/// Whether the first session line of the status output reports the
/// managed service as running.
pub open spec fn spec_session_running(out: Seq<char>) -> bool {
    contains_sub(line_seqs(out)[session_idx(line_seqs(out), 0)], "RUNNING"@)
}

/// Returns the first line of the status output holding the session
/// marker, if any.
pub fn find_session_line(status_stdout: &str) -> (r: Option<String>)
    ensures
        match r {
            Some(l) => spec_session_found(status_stdout@) && l@ == line_seqs(
                status_stdout@,
            )[session_idx(line_seqs(status_stdout@), 0)],
            None => !spec_session_found(status_stdout@),
        },
{
    let ls = split_lines(status_stdout);
    let ghost lsv = line_seqs(status_stdout@);
    let mut k: usize = 0;
    while k < ls.len()
        invariant
            k <= ls.len(),
            lsv == line_seqs(status_stdout@),
            views_of(ls@) == lsv,
            session_idx(lsv, 0) == session_idx(lsv, k as int),
        decreases ls.len() - k,
    {
        assert(ls@[k as int]@ == lsv[k as int]);
        if contains_str(ls[k].as_str(), "Session:") {
            proof {
                assert(contains_sub(lsv[k as int], "Session:"@));
                assert(session_idx(lsv, k as int) == k as int);
                assert(views_of(ls@).len() == ls@.len());
                assert(lsv.len() == ls@.len());
                assert((k as int) < lsv.len());
                assert(spec_session_found(status_stdout@));
            }
            return Some(ls[k].clone());
        }
        k += 1;
    }
    assert(session_idx(lsv, ls@.len() as int) == ls@.len());
    None
}

/// The container runtime step opens with a capturing status probe after
/// the elevation and tool checks.
pub open spec fn spec_run_waydroid(
    sudo: Option<Seq<char>>,
    waydroid: Option<Seq<char>>,
) -> Result<CmdView, TopgradeError> {
    match sudo {
        None => Err(TopgradeError::SudoRequired),
        Some(_) => match waydroid {
            None => Err(TopgradeError::ToolMissing),
            Some(w) => Ok(CmdView { capture: true, ..cmd(w, seq!["status"@]) }),
        },
    }
}

/// Opens the container runtime step: the capturing probe whose output
/// reports whether a session is running.
pub fn run_waydroid(ctx: &ExecutionContext, waydroid: Option<&String>) -> (r: Result<
    ExecutionRequest,
    TopgradeError,
>)
    ensures
        match r {
            Ok(req) => Ok::<CmdView, TopgradeError>(req@) == spec_run_waydroid(
                opt_owned_view(ctx.sudo),
                opt_view(waydroid),
            ),
            Err(e) => Err::<CmdView, TopgradeError>(e) == spec_run_waydroid(
                opt_owned_view(ctx.sudo),
                opt_view(waydroid),
            ),
        },
{
    if ctx.sudo.is_none() {
        return Err(TopgradeError::SudoRequired);
    }
    let waydroid = match waydroid {
        Some(w) => w,
        None => {
            return Err(TopgradeError::ToolMissing);
        },
    };
    let mut probe = ExecutionRequest::new_string(waydroid);
    probe.arg("status");
    probe.capture_output();
    proof {
        assert(probe@ =~~= spec_run_waydroid(
            opt_owned_view(ctx.sudo),
            opt_view(Some(waydroid)),
        ).unwrap());
    }
    Ok(probe)
}

/// The confirmation gate: the upgrade would stop a running session, so
/// with the session running and no assume-yes in force the user must be
/// asked before anything is executed. The status output must hold a
/// session line.
pub fn waydroid_needs_confirmation(status_stdout: &str, assume_yes: bool) -> (r: bool)
    requires
        spec_session_found(status_stdout@),
    ensures
        r == (spec_session_running(status_stdout@) && !assume_yes),
{
    match find_session_line(status_stdout) {
        Some(line) => contains_str(line.as_str(), "RUNNING") && !assume_yes,
        None => {
            proof {
                assert(false);
            }
            false
        },
    }
}

/// The container runtime upgrade after the confirmation: declining is a
/// skip, never a failure, and nothing is executed; accepting yields the
/// one elevated upgrade call.
pub open spec fn spec_waydroid_upgrade(
    sudo: Option<Seq<char>>,
    waydroid: Seq<char>,
    proceed: bool,
) -> Result<Seq<CmdView>, TopgradeError> {
    if !proceed {
        Err(TopgradeError::SkipStep)
    } else {
        match sudo {
            None => Err(TopgradeError::SudoRequired),
            Some(s) => Ok(seq![cmd(s, seq![waydroid, "upgrade"@])]),
        }
    }
}

/// The container runtime upgrade after the confirmation. `proceed` is
/// the outcome: assume-yes, a stopped session, or the user's answer.
pub fn waydroid_upgrade(ctx: &ExecutionContext, waydroid: &String, proceed: bool) -> (r: Result<
    Vec<ExecutionRequest>,
    TopgradeError,
>)
    ensures
        plan_result_views(r) == spec_waydroid_upgrade(
            opt_owned_view(ctx.sudo),
            waydroid@,
            proceed,
        ),
{
    if !proceed {
        return Err(TopgradeError::SkipStep);
    }
    let sudo = match &ctx.sudo {
        Some(s) => s,
        None => {
            return Err(TopgradeError::SudoRequired);
        },
    };
    let mut up = ExecutionRequest::new_string(sudo);
    up.arg_string(waydroid);
    up.arg("upgrade");
    let mut p: Vec<ExecutionRequest> = Vec::new();
    p.push(up);
    proof {
        assert(cmd_views(p@) =~~= spec_waydroid_upgrade(
            opt_owned_view(ctx.sudo),
            waydroid@,
            proceed,
        ).unwrap());
    }
    Ok(p)
}

} // verus!
