//! The Upgrade Dispatch Engine: for each resolved distribution variant,
//! exactly one procedure — an ordered sequence of execution requests
//! built from the policy and from the tool probes the caller gathered.
//!
//! A procedure either runs all its steps or stops at the first failing
//! one; that policy lives in [`crate::exec::step_outcome`]. Here the
//! procedures themselves are built, each pinned to a specification of
//! the exact commands it plans.

use vstd::prelude::*;

use crate::config::{ExecutionContext, Step};
use crate::distribution::Distribution;
use crate::exec::{cmd, cmd_views, CmdView, ExecutionRequest};
use crate::text::{line_seqs, split_lines, str_eq, tokens, trim_str, trimmed, views_of};
use crate::TopgradeError;

verus! {

/// The view of an `Option<&String>` probe result.
pub open spec fn opt_view(x: Option<&String>) -> Option<Seq<char>> {
    match x {
        Some(s) => Some(s@),
        None => None,
    }
}

/// The view of an owned `Option<String>` value.
pub open spec fn opt_owned_view(x: Option<String>) -> Option<Seq<char>> {
    match x {
        Some(s) => Some(s@),
        None => None,
    }
}

/// The view of a whole plan result.
pub open spec fn plan_result_views(r: Result<Vec<ExecutionRequest>, TopgradeError>) -> Result<
    Seq<CmdView>,
    TopgradeError,
> {
    match r {
        Ok(p) => Ok(cmd_views(p@)),
        Err(e) => Err(e),
    }
}

/// The refresh-then-upgrade pair of the apk family, elevated.
pub open spec fn spec_apk_plan(sudo: Option<Seq<char>>, apk: Option<Seq<char>>) -> Result<
    Seq<CmdView>,
    TopgradeError,
> {
    match apk {
        None => Err(TopgradeError::ToolMissing),
        Some(a) => match sudo {
            None => Err(TopgradeError::SudoRequired),
            Some(s) => Ok(
                seq![cmd(s, seq![a, "update"@]), cmd(s, seq![a, "upgrade"@])],
            ),
        },
    }
}

/// Builds the apk refresh-then-upgrade pair shared by the distributions
/// whose package manager is apk.
fn apk_pair(ctx: &ExecutionContext, apk: Option<&String>) -> (r: Result<
    Vec<ExecutionRequest>,
    TopgradeError,
>)
    ensures
        plan_result_views(r) == spec_apk_plan(opt_owned_view(ctx.sudo), opt_view(apk)),
{
    let apk = match apk {
        Some(a) => a,
        None => {
            return Err(TopgradeError::ToolMissing);
        },
    };
    let sudo = match &ctx.sudo {
        Some(s) => s,
        None => {
            return Err(TopgradeError::SudoRequired);
        },
    };
    let mut p: Vec<ExecutionRequest> = Vec::new();
    let mut update = ExecutionRequest::new_string(sudo);
    update.arg_string(apk);
    update.arg("update");
    p.push(update);
    let mut upgrade = ExecutionRequest::new_string(sudo);
    upgrade.arg_string(apk);
    upgrade.arg("upgrade");
    p.push(upgrade);
    proof {
        assert(cmd_views(p@) =~~= spec_apk_plan(
            opt_owned_view(ctx.sudo),
            opt_view(Some(apk)),
        ).unwrap());
    }
    Ok(p)
}

/// The Alpine procedure: apk update, then apk upgrade, both elevated.
pub fn upgrade_alpine_linux(ctx: &ExecutionContext, apk: Option<&String>) -> (r: Result<
    Vec<ExecutionRequest>,
    TopgradeError,
>)
    ensures
        plan_result_views(r) == spec_apk_plan(opt_owned_view(ctx.sudo), opt_view(apk)),
{
    apk_pair(ctx, apk)
}

/// The Chimera procedure: the same apk pair as Alpine.
pub fn upgrade_chimera_linux(ctx: &ExecutionContext, apk: Option<&String>) -> (r: Result<
    Vec<ExecutionRequest>,
    TopgradeError,
>)
    ensures
        plan_result_views(r) == spec_apk_plan(opt_owned_view(ctx.sudo), opt_view(apk)),
{
    apk_pair(ctx, apk)
}

/// The Wolfi procedure: the same apk pair as Alpine.
pub fn upgrade_wolfi_linux(ctx: &ExecutionContext, apk: Option<&String>) -> (r: Result<
    Vec<ExecutionRequest>,
    TopgradeError,
>)
    ensures
        plan_result_views(r) == spec_apk_plan(opt_owned_view(ctx.sudo), opt_view(apk)),
{
    apk_pair(ctx, apk)
}

/// The Suse procedure: refresh, then dist-upgrade or update per policy,
/// with assume-yes appended when in force.
pub open spec fn spec_upgrade_suse(sudo: Option<Seq<char>>, dup: bool, yes: bool) -> Result<
    Seq<CmdView>,
    TopgradeError,
> {
    match sudo {
        None => Err(TopgradeError::SudoRequired),
        Some(s) => {
            let base = seq![
                "zypper"@,
                if dup {
                    "dist-upgrade"@
                } else {
                    "update"@
                },
            ];
            Ok(
                seq![
                    cmd(s, seq!["zypper"@, "refresh"@]),
                    cmd(
                        s,
                        if yes {
                            base.push("-y"@)
                        } else {
                            base
                        },
                    ),
                ],
            )
        },
    }
}

/// The Suse procedure.
pub fn upgrade_suse(ctx: &ExecutionContext) -> (r: Result<Vec<ExecutionRequest>, TopgradeError>)
    ensures
        plan_result_views(r) == spec_upgrade_suse(
            opt_owned_view(ctx.sudo),
            ctx.config.suse_dup,
            ctx.config.spec_yes(Step::System),
        ),
{
    let sudo = match &ctx.sudo {
        Some(s) => s,
        None => {
            return Err(TopgradeError::SudoRequired);
        },
    };
    let mut p: Vec<ExecutionRequest> = Vec::new();
    let mut refresh = ExecutionRequest::new_string(sudo);
    refresh.arg("zypper");
    refresh.arg("refresh");
    p.push(refresh);
    let mut up = ExecutionRequest::new_string(sudo);
    up.arg("zypper");
    if ctx.config.suse_dup {
        up.arg("dist-upgrade");
    } else {
        up.arg("update");
    }
    if ctx.config.yes(Step::System) {
        up.arg("-y");
    }
    p.push(up);
    proof {
        assert(cmd_views(p@) =~~= spec_upgrade_suse(
            opt_owned_view(ctx.sudo),
            ctx.config.suse_dup,
            ctx.config.spec_yes(Step::System),
        ).unwrap());
    }
    Ok(p)
}

/// The Tumbleweed procedure: refresh, then dist-upgrade always.
pub open spec fn spec_upgrade_opensuse_tumbleweed(sudo: Option<Seq<char>>, yes: bool) -> Result<
    Seq<CmdView>,
    TopgradeError,
> {
    match sudo {
        None => Err(TopgradeError::SudoRequired),
        Some(s) => {
            let base = seq!["zypper"@, "dist-upgrade"@];
            Ok(
                seq![
                    cmd(s, seq!["zypper"@, "refresh"@]),
                    cmd(
                        s,
                        if yes {
                            base.push("-y"@)
                        } else {
                            base
                        },
                    ),
                ],
            )
        },
    }
}

/// The Tumbleweed procedure.
pub fn upgrade_opensuse_tumbleweed(ctx: &ExecutionContext) -> (r: Result<
    Vec<ExecutionRequest>,
    TopgradeError,
>)
    ensures
        plan_result_views(r) == spec_upgrade_opensuse_tumbleweed(
            opt_owned_view(ctx.sudo),
            ctx.config.spec_yes(Step::System),
        ),
{
    let sudo = match &ctx.sudo {
        Some(s) => s,
        None => {
            return Err(TopgradeError::SudoRequired);
        },
    };
    let mut p: Vec<ExecutionRequest> = Vec::new();
    let mut refresh = ExecutionRequest::new_string(sudo);
    refresh.arg("zypper");
    refresh.arg("refresh");
    p.push(refresh);
    let mut up = ExecutionRequest::new_string(sudo);
    up.arg("zypper");
    up.arg("dist-upgrade");
    if ctx.config.yes(Step::System) {
        up.arg("-y");
    }
    p.push(up);
    proof {
        assert(cmd_views(p@) =~~= spec_upgrade_opensuse_tumbleweed(
            opt_owned_view(ctx.sudo),
            ctx.config.spec_yes(Step::System),
        ).unwrap());
    }
    Ok(p)
}

/// The transactional Suse procedure: one transactional-update call,
/// non-interactive when assume-yes is in force.
pub open spec fn spec_upgrade_suse_micro(sudo: Option<Seq<char>>, yes: bool) -> Result<
    Seq<CmdView>,
    TopgradeError,
> {
    match sudo {
        None => Err(TopgradeError::SudoRequired),
        Some(s) => {
            let base = seq!["transactional-update"@];
            Ok(
                seq![
                    cmd(
                        s,
                        (if yes {
                            base.push("-n"@)
                        } else {
                            base
                        }).push("dup"@),
                    ),
                ],
            )
        },
    }
}

/// The transactional Suse procedure.
pub fn upgrade_suse_micro(ctx: &ExecutionContext) -> (r: Result<
    Vec<ExecutionRequest>,
    TopgradeError,
>)
    ensures
        plan_result_views(r) == spec_upgrade_suse_micro(
            opt_owned_view(ctx.sudo),
            ctx.config.spec_yes(Step::System),
        ),
{
    let sudo = match &ctx.sudo {
        Some(s) => s,
        None => {
            return Err(TopgradeError::SudoRequired);
        },
    };
    let mut p: Vec<ExecutionRequest> = Vec::new();
    let mut up = ExecutionRequest::new_string(sudo);
    up.arg("transactional-update");
    if ctx.config.yes(Step::System) {
        up.arg("-n");
    }
    up.arg("dup");
    p.push(up);
    proof {
        assert(cmd_views(p@) =~~= spec_upgrade_suse_micro(
            opt_owned_view(ctx.sudo),
            ctx.config.spec_yes(Step::System),
        ).unwrap());
    }
    Ok(p)
}

/// The RedHat family procedure: the boot-container tool takes precedence
/// over the atomic tool, which takes precedence over the traditional
/// package manager, each only when its policy flag enables it and its
/// binary was found; the traditional path takes dist-sync or upgrade,
/// the free-form extra arguments, and assume-yes.
pub open spec fn spec_upgrade_redhat(
    sudo: Option<Seq<char>>,
    bootc: Option<Seq<char>>,
    rpm_ostree: Option<Seq<char>>,
    dnf: Option<Seq<char>>,
    use_bootc: bool,
    use_rpm_ostree: bool,
    distro_sync: bool,
    dnf_args: Option<Seq<char>>,
    yes: bool,
) -> Result<Seq<CmdView>, TopgradeError> {
    if bootc is Some && use_bootc {
        match sudo {
            None => Err(TopgradeError::SudoRequired),
            Some(s) => Ok(seq![cmd(s, seq![bootc.unwrap(), "upgrade"@])]),
        }
    } else if rpm_ostree is Some && use_rpm_ostree {
        Ok(seq![cmd(rpm_ostree.unwrap(), seq!["upgrade"@])])
    } else {
        match sudo {
            None => Err(TopgradeError::SudoRequired),
            Some(s) => {
                let pm = match dnf {
                    Some(d) => d,
                    None => "yum"@,
                };
                let base = seq![
                    pm,
                    if distro_sync {
                        "distro-sync"@
                    } else {
                        "upgrade"@
                    },
                ];
                let with_extra = match dnf_args {
                    Some(a) => base + tokens(a),
                    None => base,
                };
                Ok(
                    seq![
                        cmd(
                            s,
                            if yes {
                                with_extra.push("-y"@)
                            } else {
                                with_extra
                            },
                        ),
                    ],
                )
            },
        }
    }
}

/// The RedHat family procedure.
pub fn upgrade_redhat(
    ctx: &ExecutionContext,
    bootc: Option<&String>,
    rpm_ostree: Option<&String>,
    dnf: Option<&String>,
) -> (r: Result<Vec<ExecutionRequest>, TopgradeError>)
    ensures
        plan_result_views(r) == spec_upgrade_redhat(
            opt_owned_view(ctx.sudo),
            opt_view(bootc),
            opt_view(rpm_ostree),
            opt_view(dnf),
            ctx.config.bootc,
            ctx.config.rpm_ostree,
            ctx.config.redhat_distro_sync,
            opt_owned_view(ctx.config.dnf_arguments),
            ctx.config.spec_yes(Step::System),
        ),
{
    if let Some(bootc) = bootc {
        if ctx.config.bootc {
            let sudo = match &ctx.sudo {
                Some(s) => s,
                None => {
                    return Err(TopgradeError::SudoRequired);
                },
            };
            let mut up = ExecutionRequest::new_string(sudo);
            up.arg_string(bootc);
            up.arg("upgrade");
            let mut p: Vec<ExecutionRequest> = Vec::new();
            p.push(up);
            proof {
                assert(cmd_views(p@) =~~= spec_upgrade_redhat(
                    opt_owned_view(ctx.sudo),
                    opt_view(Some(bootc)),
                    opt_view(rpm_ostree),
                    opt_view(dnf),
                    ctx.config.bootc,
                    ctx.config.rpm_ostree,
                    ctx.config.redhat_distro_sync,
                    opt_owned_view(ctx.config.dnf_arguments),
                    ctx.config.spec_yes(Step::System),
                ).unwrap());
            }
            return Ok(p);
        }
    }
    if let Some(ostree) = rpm_ostree {
        if ctx.config.rpm_ostree {
            let mut up = ExecutionRequest::new_string(ostree);
            up.arg("upgrade");
            let mut p: Vec<ExecutionRequest> = Vec::new();
            p.push(up);
            proof {
                assert(cmd_views(p@) =~~= spec_upgrade_redhat(
                    opt_owned_view(ctx.sudo),
                    opt_view(bootc),
                    opt_view(Some(ostree)),
                    opt_view(dnf),
                    ctx.config.bootc,
                    ctx.config.rpm_ostree,
                    ctx.config.redhat_distro_sync,
                    opt_owned_view(ctx.config.dnf_arguments),
                    ctx.config.spec_yes(Step::System),
                ).unwrap());
            }
            return Ok(p);
        }
    }
    let sudo = match &ctx.sudo {
        Some(s) => s,
        None => {
            return Err(TopgradeError::SudoRequired);
        },
    };
    let mut up = ExecutionRequest::new_string(sudo);
    match dnf {
        Some(d) => up.arg_string(d),
        None => up.arg("yum"),
    }
    if ctx.config.redhat_distro_sync {
        up.arg("distro-sync");
    } else {
        up.arg("upgrade");
    }
    if let Some(args) = &ctx.config.dnf_arguments {
        up.args_split(args.as_str());
    }
    if ctx.config.yes(Step::System) {
        up.arg("-y");
    }
    let mut p: Vec<ExecutionRequest> = Vec::new();
    p.push(up);
    proof {
        assert(cmd_views(p@) =~~= spec_upgrade_redhat(
            opt_owned_view(ctx.sudo),
            opt_view(bootc),
            opt_view(rpm_ostree),
            opt_view(dnf),
            ctx.config.bootc,
            ctx.config.rpm_ostree,
            ctx.config.redhat_distro_sync,
            opt_owned_view(ctx.config.dnf_arguments),
            ctx.config.spec_yes(Step::System),
        ).unwrap());
    }
    Ok(p)
}

/// The immutable Fedora procedure: the boot-container tool when enabled
/// and found (elevated), else the atomic tool, unelevated.
pub open spec fn spec_upgrade_fedora_immutable(
    sudo: Option<Seq<char>>,
    bootc: Option<Seq<char>>,
    rpm_ostree: Option<Seq<char>>,
    use_bootc: bool,
) -> Result<Seq<CmdView>, TopgradeError> {
    if bootc is Some && use_bootc {
        match sudo {
            None => Err(TopgradeError::SudoRequired),
            Some(s) => Ok(seq![cmd(s, seq![bootc.unwrap(), "upgrade"@])]),
        }
    } else {
        match rpm_ostree {
            None => Err(TopgradeError::ToolMissing),
            Some(o) => Ok(seq![cmd(o, seq!["upgrade"@])]),
        }
    }
}

/// The immutable Fedora procedure.
pub fn upgrade_fedora_immutable(
    ctx: &ExecutionContext,
    bootc: Option<&String>,
    rpm_ostree: Option<&String>,
) -> (r: Result<Vec<ExecutionRequest>, TopgradeError>)
    ensures
        plan_result_views(r) == spec_upgrade_fedora_immutable(
            opt_owned_view(ctx.sudo),
            opt_view(bootc),
            opt_view(rpm_ostree),
            ctx.config.bootc,
        ),
{
    if let Some(bootc) = bootc {
        if ctx.config.bootc {
            let sudo = match &ctx.sudo {
                Some(s) => s,
                None => {
                    return Err(TopgradeError::SudoRequired);
                },
            };
            let mut up = ExecutionRequest::new_string(sudo);
            up.arg_string(bootc);
            up.arg("upgrade");
            let mut p: Vec<ExecutionRequest> = Vec::new();
            p.push(up);
            proof {
                assert(cmd_views(p@) =~~= spec_upgrade_fedora_immutable(
                    opt_owned_view(ctx.sudo),
                    opt_view(Some(bootc)),
                    opt_view(rpm_ostree),
                    ctx.config.bootc,
                ).unwrap());
            }
            return Ok(p);
        }
    }
    let ostree = match rpm_ostree {
        Some(o) => o,
        None => {
            return Err(TopgradeError::ToolMissing);
        },
    };
    let mut up = ExecutionRequest::new_string(ostree);
    up.arg("upgrade");
    let mut p: Vec<ExecutionRequest> = Vec::new();
    p.push(up);
    proof {
        assert(cmd_views(p@) =~~= spec_upgrade_fedora_immutable(
            opt_owned_view(ctx.sudo),
            opt_view(bootc),
            opt_view(Some(ostree)),
            ctx.config.bootc,
        ).unwrap());
    }
    Ok(p)
}

/// The Nobara procedure: one refresh of the repository packages, then a
/// distro-sync, both elevated and each taking assume-yes before its
/// subcommand.
pub open spec fn spec_upgrade_nobara(
    sudo: Option<Seq<char>>,
    dnf: Option<Seq<char>>,
    yes: bool,
) -> Result<Seq<CmdView>, TopgradeError> {
    match sudo {
        None => Err(TopgradeError::SudoRequired),
        Some(s) => match dnf {
            None => Err(TopgradeError::ToolMissing),
            Some(d) => {
                let update_head = if yes {
                    seq![d, "-y"@]
                } else {
                    seq![d]
                };
                let update_args = update_head + seq![
                    "update"@,
                    "rpmfusion-nonfree-release"@,
                    "rpmfusion-free-release"@,
                    "fedora-repos"@,
                    "nobara-repos"@,
                    "--refresh"@,
                ];
                let sync_head = if yes {
                    seq![d, "-y"@]
                } else {
                    seq![d]
                };
                Ok(seq![cmd(s, update_args), cmd(s, sync_head.push("distro-sync"@))])
            },
        },
    }
}

/// The Nobara procedure.
pub fn upgrade_nobara(ctx: &ExecutionContext, dnf: Option<&String>) -> (r: Result<
    Vec<ExecutionRequest>,
    TopgradeError,
>)
    ensures
        plan_result_views(r) == spec_upgrade_nobara(
            opt_owned_view(ctx.sudo),
            opt_view(dnf),
            ctx.config.spec_yes(Step::System),
        ),
{
    let sudo = match &ctx.sudo {
        Some(s) => s,
        None => {
            return Err(TopgradeError::SudoRequired);
        },
    };
    let dnf = match dnf {
        Some(d) => d,
        None => {
            return Err(TopgradeError::ToolMissing);
        },
    };
    let mut update = ExecutionRequest::new_string(sudo);
    update.arg_string(dnf);
    if ctx.config.yes(Step::System) {
        update.arg("-y");
    }
    update.arg("update");
    // The repository packages refreshed ahead of the distro-sync.
    update.arg("rpmfusion-nonfree-release");
    update.arg("rpmfusion-free-release");
    update.arg("fedora-repos");
    update.arg("nobara-repos");
    update.arg("--refresh");
    let mut sync = ExecutionRequest::new_string(sudo);
    sync.arg_string(dnf);
    if ctx.config.yes(Step::System) {
        sync.arg("-y");
    }
    sync.arg("distro-sync");
    let mut p: Vec<ExecutionRequest> = Vec::new();
    p.push(update);
    p.push(sync);
    proof {
        assert(cmd_views(p@) =~~= spec_upgrade_nobara(
            opt_owned_view(ctx.sudo),
            opt_view(Some(dnf)),
            ctx.config.spec_yes(Step::System),
        ).unwrap());
    }
    Ok(p)
}

/// The NILRT procedure: opkg update, then opkg upgrade, both elevated.
pub open spec fn spec_upgrade_nilrt(sudo: Option<Seq<char>>, opkg: Option<Seq<char>>) -> Result<
    Seq<CmdView>,
    TopgradeError,
> {
    match sudo {
        None => Err(TopgradeError::SudoRequired),
        Some(s) => match opkg {
            None => Err(TopgradeError::ToolMissing),
            Some(o) => Ok(seq![cmd(s, seq![o, "update"@]), cmd(s, seq![o, "upgrade"@])]),
        },
    }
}

/// The NILRT procedure.
pub fn upgrade_nilrt(ctx: &ExecutionContext, opkg: Option<&String>) -> (r: Result<
    Vec<ExecutionRequest>,
    TopgradeError,
>)
    ensures
        plan_result_views(r) == spec_upgrade_nilrt(opt_owned_view(ctx.sudo), opt_view(opkg)),
{
    let sudo = match &ctx.sudo {
        Some(s) => s,
        None => {
            return Err(TopgradeError::SudoRequired);
        },
    };
    let opkg = match opkg {
        Some(o) => o,
        None => {
            return Err(TopgradeError::ToolMissing);
        },
    };
    let mut p: Vec<ExecutionRequest> = Vec::new();
    let mut update = ExecutionRequest::new_string(sudo);
    update.arg_string(opkg);
    update.arg("update");
    p.push(update);
    let mut up = ExecutionRequest::new_string(sudo);
    up.arg_string(opkg);
    up.arg("upgrade");
    p.push(up);
    proof {
        assert(cmd_views(p@) =~~= spec_upgrade_nilrt(
            opt_owned_view(ctx.sudo),
            opt_view(Some(opkg)),
        ).unwrap());
    }
    Ok(p)
}

/// The multi-strata refresh: one elevated update of the strata manager.
pub open spec fn spec_upgrade_bedrock_strata(sudo: Option<Seq<char>>) -> Result<
    Seq<CmdView>,
    TopgradeError,
> {
    match sudo {
        None => Err(TopgradeError::SudoRequired),
        Some(s) => Ok(seq![cmd(s, seq!["brl"@, "update"@])]),
    }
}

/// The multi-strata refresh procedure for the managing stratum itself.
pub fn upgrade_bedrock_strata(ctx: &ExecutionContext) -> (r: Result<
    Vec<ExecutionRequest>,
    TopgradeError,
>)
    ensures
        plan_result_views(r) == spec_upgrade_bedrock_strata(opt_owned_view(ctx.sudo)),
{
    let sudo = match &ctx.sudo {
        Some(s) => s,
        None => {
            return Err(TopgradeError::SudoRequired);
        },
    };
    let mut up = ExecutionRequest::new_string(sudo);
    up.arg("brl");
    up.arg("update");
    let mut p: Vec<ExecutionRequest> = Vec::new();
    p.push(up);
    proof {
        assert(cmd_views(p@) =~~= spec_upgrade_bedrock_strata(opt_owned_view(ctx.sudo)).unwrap());
    }
    Ok(p)
}

/// The OpenMandriva procedure: one elevated dnf upgrade with the
/// free-form extra arguments and assume-yes.
pub open spec fn spec_upgrade_openmandriva(
    sudo: Option<Seq<char>>,
    dnf: Seq<char>,
    dnf_args: Option<Seq<char>>,
    yes: bool,
) -> Result<Seq<CmdView>, TopgradeError> {
    match sudo {
        None => Err(TopgradeError::SudoRequired),
        Some(s) => {
            let base = seq![dnf, "upgrade"@];
            let with_extra = match dnf_args {
                Some(a) => base + tokens(a),
                None => base,
            };
            Ok(
                seq![
                    cmd(
                        s,
                        if yes {
                            with_extra.push("-y"@)
                        } else {
                            with_extra
                        },
                    ),
                ],
            )
        },
    }
}

/// The OpenMandriva procedure. The package manager is taken for granted
/// on this variant, so its probe must have found it.
pub fn upgrade_openmandriva(ctx: &ExecutionContext, dnf: Option<&String>) -> (r: Result<
    Vec<ExecutionRequest>,
    TopgradeError,
>)
    requires
        dnf is Some,
    ensures
        plan_result_views(r) == spec_upgrade_openmandriva(
            opt_owned_view(ctx.sudo),
            dnf.unwrap()@,
            opt_owned_view(ctx.config.dnf_arguments),
            ctx.config.spec_yes(Step::System),
        ),
{
    let sudo = match &ctx.sudo {
        Some(s) => s,
        None => {
            return Err(TopgradeError::SudoRequired);
        },
    };
    let dnf = match dnf {
        Some(d) => d,
        None => {
            proof {
                assert(false);
            }
            return Err(TopgradeError::ToolMissing);
        },
    };
    let mut up = ExecutionRequest::new_string(sudo);
    up.arg_string(dnf);
    up.arg("upgrade");
    if let Some(args) = &ctx.config.dnf_arguments {
        up.args_split(args.as_str());
    }
    if ctx.config.yes(Step::System) {
        up.arg("-y");
    }
    let mut p: Vec<ExecutionRequest> = Vec::new();
    p.push(up);
    proof {
        assert(cmd_views(p@) =~~= spec_upgrade_openmandriva(
            opt_owned_view(ctx.sudo),
            dnf@,
            opt_owned_view(ctx.config.dnf_arguments),
            ctx.config.spec_yes(Step::System),
        ).unwrap());
    }
    Ok(p)
}

/// The PCLinuxOS procedure: an elevated apt-get update (taking the same
/// free-form extra arguments as the RedHat family) and an elevated
/// apt-get dist-upgrade.
pub open spec fn spec_upgrade_pclinuxos(
    sudo: Option<Seq<char>>,
    apt_get: Seq<char>,
    dnf_args: Option<Seq<char>>,
    yes: bool,
) -> Result<Seq<CmdView>, TopgradeError> {
    match sudo {
        None => Err(TopgradeError::SudoRequired),
        Some(s) => {
            let base = seq![apt_get, "update"@];
            let with_extra = match dnf_args {
                Some(a) => base + tokens(a),
                None => base,
            };
            let update_args = if yes {
                with_extra.push("-y"@)
            } else {
                with_extra
            };
            let dist = seq![apt_get, "dist-upgrade"@];
            Ok(
                seq![
                    cmd(s, update_args),
                    cmd(
                        s,
                        if yes {
                            dist.push("-y"@)
                        } else {
                            dist
                        },
                    ),
                ],
            )
        },
    }
}

/// The PCLinuxOS procedure. The apt front-end is taken for granted on
/// this variant, so its probe must have found it.
pub fn upgrade_pclinuxos(ctx: &ExecutionContext, apt_get: Option<&String>) -> (r: Result<
    Vec<ExecutionRequest>,
    TopgradeError,
>)
    requires
        apt_get is Some,
    ensures
        plan_result_views(r) == spec_upgrade_pclinuxos(
            opt_owned_view(ctx.sudo),
            apt_get.unwrap()@,
            opt_owned_view(ctx.config.dnf_arguments),
            ctx.config.spec_yes(Step::System),
        ),
{
    let sudo = match &ctx.sudo {
        Some(s) => s,
        None => {
            return Err(TopgradeError::SudoRequired);
        },
    };
    let apt_get = match apt_get {
        Some(a) => a,
        None => {
            proof {
                assert(false);
            }
            return Err(TopgradeError::ToolMissing);
        },
    };
    let mut update = ExecutionRequest::new_string(sudo);
    update.arg_string(apt_get);
    update.arg("update");
    if let Some(args) = &ctx.config.dnf_arguments {
        update.args_split(args.as_str());
    }
    if ctx.config.yes(Step::System) {
        update.arg("-y");
    }
    let mut dist = ExecutionRequest::new_string(sudo);
    dist.arg_string(apt_get);
    dist.arg("dist-upgrade");
    if ctx.config.yes(Step::System) {
        dist.arg("-y");
    }
    let mut p: Vec<ExecutionRequest> = Vec::new();
    p.push(update);
    p.push(dist);
    proof {
        assert(cmd_views(p@) =~~= spec_upgrade_pclinuxos(
            opt_owned_view(ctx.sudo),
            apt_get@,
            opt_owned_view(ctx.config.dnf_arguments),
            ctx.config.spec_yes(Step::System),
        ).unwrap());
    }
    Ok(p)
}

/// The Vanilla procedure: an update of every sub-container, then an
/// upgrade of every sub-container, unelevated. The upgrade phase builds
/// its own argument list; it must not inherit the update phase's.
pub open spec fn spec_upgrade_vanilla(apx: Option<Seq<char>>, yes: bool) -> Result<
    Seq<CmdView>,
    TopgradeError,
> {
    match apx {
        None => Err(TopgradeError::ToolMissing),
        Some(a) => {
            let update = seq!["update"@, "--all"@];
            let upgrade = seq!["upgrade"@, "--all"@];
            Ok(
                seq![
                    cmd(
                        a,
                        if yes {
                            update.push("-y"@)
                        } else {
                            update
                        },
                    ),
                    cmd(
                        a,
                        if yes {
                            upgrade.push("-y"@)
                        } else {
                            upgrade
                        },
                    ),
                ],
            )
        },
    }
}

/// The Vanilla procedure.
pub fn upgrade_vanilla(ctx: &ExecutionContext, apx: Option<&String>) -> (r: Result<
    Vec<ExecutionRequest>,
    TopgradeError,
>)
    ensures
        plan_result_views(r) == spec_upgrade_vanilla(
            opt_view(apx),
            ctx.config.spec_yes(Step::System),
        ),
{
    let apx = match apx {
        Some(a) => a,
        None => {
            return Err(TopgradeError::ToolMissing);
        },
    };
    let mut update = ExecutionRequest::new_string(apx);
    update.arg("update");
    update.arg("--all");
    if ctx.config.yes(Step::System) {
        update.arg("-y");
    }
    let mut upgrade = ExecutionRequest::new_string(apx);
    upgrade.arg("upgrade");
    upgrade.arg("--all");
    if ctx.config.yes(Step::System) {
        upgrade.arg("-y");
    }
    let mut p: Vec<ExecutionRequest> = Vec::new();
    p.push(update);
    p.push(upgrade);
    proof {
        assert(cmd_views(p@) =~~= spec_upgrade_vanilla(
            opt_view(Some(apx)),
            ctx.config.spec_yes(Step::System),
        ).unwrap());
    }
    Ok(p)
}

/// The Void procedure: an elevated self-update of the package manager,
/// then an elevated update of everything else.
pub open spec fn spec_upgrade_void(sudo: Option<Seq<char>>, yes: bool) -> Result<
    Seq<CmdView>,
    TopgradeError,
> {
    match sudo {
        None => Err(TopgradeError::SudoRequired),
        Some(s) => {
            let first = seq!["xbps-install"@, "-Su"@, "xbps"@];
            let second = seq!["xbps-install"@, "-u"@];
            Ok(
                seq![
                    cmd(
                        s,
                        if yes {
                            first.push("-y"@)
                        } else {
                            first
                        },
                    ),
                    cmd(
                        s,
                        if yes {
                            second.push("-y"@)
                        } else {
                            second
                        },
                    ),
                ],
            )
        },
    }
}

/// The Void procedure.
pub fn upgrade_void(ctx: &ExecutionContext) -> (r: Result<Vec<ExecutionRequest>, TopgradeError>)
    ensures
        plan_result_views(r) == spec_upgrade_void(
            opt_owned_view(ctx.sudo),
            ctx.config.spec_yes(Step::System),
        ),
{
    let sudo = match &ctx.sudo {
        Some(s) => s,
        None => {
            return Err(TopgradeError::SudoRequired);
        },
    };
    let mut first = ExecutionRequest::new_string(sudo);
    first.arg("xbps-install");
    first.arg("-Su");
    first.arg("xbps");
    if ctx.config.yes(Step::System) {
        first.arg("-y");
    }
    let mut second = ExecutionRequest::new_string(sudo);
    second.arg("xbps-install");
    second.arg("-u");
    if ctx.config.yes(Step::System) {
        second.arg("-y");
    }
    let mut p: Vec<ExecutionRequest> = Vec::new();
    p.push(first);
    p.push(second);
    proof {
        assert(cmd_views(p@) =~~= spec_upgrade_void(
            opt_owned_view(ctx.sudo),
            ctx.config.spec_yes(Step::System),
        ).unwrap());
    }
    Ok(p)
}

/// The Clear Linux procedure: one elevated swupd update.
pub open spec fn spec_upgrade_clearlinux(sudo: Option<Seq<char>>, yes: bool) -> Result<
    Seq<CmdView>,
    TopgradeError,
> {
    match sudo {
        None => Err(TopgradeError::SudoRequired),
        Some(s) => {
            let base = seq!["swupd"@, "update"@];
            Ok(
                seq![
                    cmd(
                        s,
                        if yes {
                            base.push("--assume=yes"@)
                        } else {
                            base
                        },
                    ),
                ],
            )
        },
    }
}

/// The Clear Linux procedure.
pub fn upgrade_clearlinux(ctx: &ExecutionContext) -> (r: Result<
    Vec<ExecutionRequest>,
    TopgradeError,
>)
    ensures
        plan_result_views(r) == spec_upgrade_clearlinux(
            opt_owned_view(ctx.sudo),
            ctx.config.spec_yes(Step::System),
        ),
{
    let sudo = match &ctx.sudo {
        Some(s) => s,
        None => {
            return Err(TopgradeError::SudoRequired);
        },
    };
    let mut up = ExecutionRequest::new_string(sudo);
    up.arg("swupd");
    up.arg("update");
    if ctx.config.yes(Step::System) {
        up.arg("--assume=yes");
    }
    let mut p: Vec<ExecutionRequest> = Vec::new();
    p.push(up);
    proof {
        assert(cmd_views(p@) =~~= spec_upgrade_clearlinux(
            opt_owned_view(ctx.sudo),
            ctx.config.spec_yes(Step::System),
        ).unwrap());
    }
    Ok(p)
}

/// The Solus procedure: one elevated eopkg upgrade, with assume-yes
/// standing before the subcommand.
pub open spec fn spec_upgrade_solus(sudo: Option<Seq<char>>, yes: bool) -> Result<
    Seq<CmdView>,
    TopgradeError,
> {
    match sudo {
        None => Err(TopgradeError::SudoRequired),
        Some(s) => {
            let head = if yes {
                seq!["eopkg"@, "-y"@]
            } else {
                seq!["eopkg"@]
            };
            Ok(seq![cmd(s, head.push("upgrade"@))])
        },
    }
}

/// The Solus procedure.
pub fn upgrade_solus(ctx: &ExecutionContext) -> (r: Result<Vec<ExecutionRequest>, TopgradeError>)
    ensures
        plan_result_views(r) == spec_upgrade_solus(
            opt_owned_view(ctx.sudo),
            ctx.config.spec_yes(Step::System),
        ),
{
    let sudo = match &ctx.sudo {
        Some(s) => s,
        None => {
            return Err(TopgradeError::SudoRequired);
        },
    };
    let mut up = ExecutionRequest::new_string(sudo);
    up.arg("eopkg");
    if ctx.config.yes(Step::System) {
        up.arg("-y");
    }
    up.arg("upgrade");
    let mut p: Vec<ExecutionRequest> = Vec::new();
    p.push(up);
    proof {
        assert(cmd_views(p@) =~~= spec_upgrade_solus(
            opt_owned_view(ctx.sudo),
            ctx.config.spec_yes(Step::System),
        ).unwrap());
    }
    Ok(p)
}

/// The Exherbo procedure: sync, resolve the world set, an optional
/// policy-gated purge, a linkage fix, and the interactive configuration
/// update, all elevated.
pub open spec fn spec_upgrade_exherbo(sudo: Option<Seq<char>>, cleanup: bool) -> Result<
    Seq<CmdView>,
    TopgradeError,
> {
    match sudo {
        None => Err(TopgradeError::SudoRequired),
        Some(s) => {
            let head = seq![
                cmd(s, seq!["cave"@, "sync"@]),
                cmd(
                    s,
                    seq![
                        "cave"@,
                        "resolve"@,
                        "world"@,
                        "-c1"@,
                        "-Cs"@,
                        "-km"@,
                        "-Km"@,
                        "-x"@,
                    ],
                ),
            ];
            let with_purge = if cleanup {
                head.push(cmd(s, seq!["cave"@, "purge"@, "-x"@]))
            } else {
                head
            };
            Ok(
                with_purge + seq![
                    cmd(s, seq!["cave"@, "fix-linkage"@, "-x"@, "--"@, "-Cs"@]),
                    cmd(s, seq!["eclectic"@, "config"@, "interactive"@]),
                ],
            )
        },
    }
}

/// The Exherbo procedure.
pub fn upgrade_exherbo(ctx: &ExecutionContext) -> (r: Result<Vec<ExecutionRequest>, TopgradeError>)
    ensures
        plan_result_views(r) == spec_upgrade_exherbo(opt_owned_view(ctx.sudo), ctx.config.cleanup),
{
    let sudo = match &ctx.sudo {
        Some(s) => s,
        None => {
            return Err(TopgradeError::SudoRequired);
        },
    };
    let mut p: Vec<ExecutionRequest> = Vec::new();
    let mut sync = ExecutionRequest::new_string(sudo);
    sync.arg("cave");
    sync.arg("sync");
    p.push(sync);
    let mut resolve = ExecutionRequest::new_string(sudo);
    resolve.arg("cave");
    resolve.arg("resolve");
    resolve.arg("world");
    resolve.arg("-c1");
    resolve.arg("-Cs");
    resolve.arg("-km");
    resolve.arg("-Km");
    resolve.arg("-x");
    p.push(resolve);
    if ctx.config.cleanup {
        let mut purge = ExecutionRequest::new_string(sudo);
        purge.arg("cave");
        purge.arg("purge");
        purge.arg("-x");
        p.push(purge);
    }
    let mut fix = ExecutionRequest::new_string(sudo);
    fix.arg("cave");
    fix.arg("fix-linkage");
    fix.arg("-x");
    fix.arg("--");
    fix.arg("-Cs");
    p.push(fix);
    let mut eclectic = ExecutionRequest::new_string(sudo);
    eclectic.arg("eclectic");
    eclectic.arg("config");
    eclectic.arg("interactive");
    p.push(eclectic);
    proof {
        assert(cmd_views(p@) =~~= spec_upgrade_exherbo(
            opt_owned_view(ctx.sudo),
            ctx.config.cleanup,
        ).unwrap());
    }
    Ok(p)
}

/// The NixOS procedure: an elevated whole-system rebuild with the
/// free-form extra arguments, then a policy-gated garbage collection.
pub open spec fn spec_upgrade_nixos(
    sudo: Option<Seq<char>>,
    nix_args: Option<Seq<char>>,
    cleanup: bool,
) -> Result<Seq<CmdView>, TopgradeError> {
    match sudo {
        None => Err(TopgradeError::SudoRequired),
        Some(s) => {
            let base = seq![
                "/run/current-system/sw/bin/nixos-rebuild"@,
                "switch"@,
                "--upgrade"@,
            ];
            let rebuild = match nix_args {
                Some(a) => base + tokens(a),
                None => base,
            };
            let head = seq![cmd(s, rebuild)];
            Ok(
                if cleanup {
                    head.push(
                        cmd(s, seq!["/run/current-system/sw/bin/nix-collect-garbage"@, "-d"@]),
                    )
                } else {
                    head
                },
            )
        },
    }
}

/// The NixOS procedure.
pub fn upgrade_nixos(ctx: &ExecutionContext) -> (r: Result<Vec<ExecutionRequest>, TopgradeError>)
    ensures
        plan_result_views(r) == spec_upgrade_nixos(
            opt_owned_view(ctx.sudo),
            opt_owned_view(ctx.config.nix_arguments),
            ctx.config.cleanup,
        ),
{
    let sudo = match &ctx.sudo {
        Some(s) => s,
        None => {
            return Err(TopgradeError::SudoRequired);
        },
    };
    let mut rebuild = ExecutionRequest::new_string(sudo);
    rebuild.arg("/run/current-system/sw/bin/nixos-rebuild");
    rebuild.arg("switch");
    rebuild.arg("--upgrade");
    if let Some(args) = &ctx.config.nix_arguments {
        rebuild.args_split(args.as_str());
    }
    let mut p: Vec<ExecutionRequest> = Vec::new();
    p.push(rebuild);
    if ctx.config.cleanup {
        let mut gc = ExecutionRequest::new_string(sudo);
        gc.arg("/run/current-system/sw/bin/nix-collect-garbage");
        gc.arg("-d");
        p.push(gc);
    }
    proof {
        assert(cmd_views(p@) =~~= spec_upgrade_nixos(
            opt_owned_view(ctx.sudo),
            opt_owned_view(ctx.config.nix_arguments),
            ctx.config.cleanup,
        ).unwrap());
    }
    Ok(p)
}

/// The KDE-Neon procedure: its own front-end refreshes and updates; a
/// refresh and an update must not be handed over together, so they run
/// as two invocations, and the update accepts the benign nothing-to-do
/// exit code and takes the cleanup flag as an auto-remove.
pub open spec fn spec_upgrade_neon(
    sudo: Option<Seq<char>>,
    pkcon: Seq<char>,
    yes: bool,
    cleanup: bool,
) -> Result<Seq<CmdView>, TopgradeError> {
    match sudo {
        None => Err(TopgradeError::SudoRequired),
        Some(s) => {
            let base = seq![pkcon, "update"@];
            let with_yes = if yes {
                base.push("-y"@)
            } else {
                base
            };
            let with_cleanup = if cleanup {
                with_yes.push("--autoremove"@)
            } else {
                with_yes
            };
            Ok(
                seq![
                    cmd(s, seq![pkcon, "refresh"@]),
                    CmdView { ok_codes: seq![5i32], ..cmd(s, with_cleanup) },
                ],
            )
        },
    }
}

/// The KDE-Neon procedure. The front-end is taken for granted on this
/// variant, so its probe must have found it.
pub fn upgrade_neon(ctx: &ExecutionContext, pkcon: Option<&String>) -> (r: Result<
    Vec<ExecutionRequest>,
    TopgradeError,
>)
    requires
        pkcon is Some,
    ensures
        plan_result_views(r) == spec_upgrade_neon(
            opt_owned_view(ctx.sudo),
            pkcon.unwrap()@,
            ctx.config.spec_yes(Step::System),
            ctx.config.cleanup,
        ),
{
    let sudo = match &ctx.sudo {
        Some(s) => s,
        None => {
            return Err(TopgradeError::SudoRequired);
        },
    };
    let pkcon = match pkcon {
        Some(k) => k,
        None => {
            proof {
                assert(false);
            }
            return Err(TopgradeError::ToolMissing);
        },
    };
    let mut refresh = ExecutionRequest::new_string(sudo);
    refresh.arg_string(pkcon);
    refresh.arg("refresh");
    let mut update = ExecutionRequest::new_string(sudo);
    update.arg_string(pkcon);
    update.arg("update");
    if ctx.config.yes(Step::System) {
        update.arg("-y");
    }
    if ctx.config.cleanup {
        update.arg("--autoremove");
    }
    // Exit code 5 is the front-end's benign nothing-useful-was-done code.
    update.ok_code(5);
    let mut p: Vec<ExecutionRequest> = Vec::new();
    p.push(refresh);
    p.push(update);
    proof {
        assert(cmd_views(p@) =~~= spec_upgrade_neon(
            opt_owned_view(ctx.sudo),
            pkcon@,
            ctx.config.spec_yes(Step::System),
            ctx.config.cleanup,
        ).unwrap());
    }
    Ok(p)
}

/// The Gentoo procedure: an optional overlay sync, the portage sync
/// (through the alternative front-end when present, which must not run
/// beside the plain sync), an optional cache refresh, and the world
/// update, all elevated; the two free-form flag lists fall back to the
/// canonical defaults.
pub open spec fn spec_upgrade_gentoo(
    sudo: Option<Seq<char>>,
    layman: Option<Seq<char>>,
    ego: Option<Seq<char>>,
    eix_update: Option<Seq<char>>,
    sync_flags: Option<Seq<char>>,
    update_flags: Option<Seq<char>>,
) -> Result<Seq<CmdView>, TopgradeError> {
    match sudo {
        None => Err(TopgradeError::SudoRequired),
        Some(s) => {
            let overlay = match layman {
                Some(l) => seq![cmd(s, seq![l, "-s"@, "ALL"@])],
                None => Seq::empty(),
            };
            let sync = match ego {
                Some(e) => seq![cmd(s, seq![e, "sync"@])],
                None => seq![
                    cmd(
                        s,
                        seq!["emerge"@, "--sync"@] + (match sync_flags {
                            Some(f) => tokens(f),
                            None => seq!["-q"@],
                        }),
                    ),
                ],
            };
            let cache = match eix_update {
                Some(x) => seq![cmd(s, seq![x])],
                None => Seq::empty(),
            };
            let world = seq![
                cmd(
                    s,
                    seq!["emerge"@] + (match update_flags {
                        Some(f) => tokens(f),
                        None => seq!["-uDNa"@, "--with-bdeps=y"@, "world"@],
                    }),
                ),
            ];
            Ok(overlay + sync + cache + world)
        },
    }
}

/// The Gentoo procedure.
pub fn upgrade_gentoo(
    ctx: &ExecutionContext,
    layman: Option<&String>,
    ego: Option<&String>,
    eix_update: Option<&String>,
) -> (r: Result<Vec<ExecutionRequest>, TopgradeError>)
    ensures
        plan_result_views(r) == spec_upgrade_gentoo(
            opt_owned_view(ctx.sudo),
            opt_view(layman),
            opt_view(ego),
            opt_view(eix_update),
            opt_owned_view(ctx.config.emerge_sync_flags),
            opt_owned_view(ctx.config.emerge_update_flags),
        ),
{
    let sudo = match &ctx.sudo {
        Some(s) => s,
        None => {
            return Err(TopgradeError::SudoRequired);
        },
    };
    let mut p: Vec<ExecutionRequest> = Vec::new();
    if let Some(layman) = layman {
        let mut overlay = ExecutionRequest::new_string(sudo);
        overlay.arg_string(layman);
        overlay.arg("-s");
        overlay.arg("ALL");
        p.push(overlay);
    }
    match ego {
        Some(ego) => {
            // The alternative front-end's sync replaces the plain one;
            // the two must not run side by side.
            let mut sync = ExecutionRequest::new_string(sudo);
            sync.arg_string(ego);
            sync.arg("sync");
            p.push(sync);
        },
        None => {
            let mut sync = ExecutionRequest::new_string(sudo);
            sync.arg("emerge");
            sync.arg("--sync");
            match &ctx.config.emerge_sync_flags {
                Some(f) => sync.args_split(f.as_str()),
                None => sync.arg("-q"),
            }
            p.push(sync);
        },
    }
    if let Some(eix) = eix_update {
        let mut cache = ExecutionRequest::new_string(sudo);
        cache.arg_string(eix);
        p.push(cache);
    }
    let mut world = ExecutionRequest::new_string(sudo);
    world.arg("emerge");
    match &ctx.config.emerge_update_flags {
        Some(f) => world.args_split(f.as_str()),
        None => {
            world.arg("-uDNa");
            world.arg("--with-bdeps=y");
            world.arg("world");
        },
    }
    p.push(world);
    proof {
        assert(cmd_views(p@) =~~= spec_upgrade_gentoo(
            opt_owned_view(ctx.sudo),
            opt_view(layman),
            opt_view(ego),
            opt_view(eix_update),
            opt_owned_view(ctx.config.emerge_sync_flags),
            opt_owned_view(ctx.config.emerge_update_flags),
        ).unwrap());
    }
    Ok(p)
}

/// The apt-family front-end, selected in fixed priority order: the
/// parallel-download wrapper, then the unprivileged store front-end,
/// then the friendlier front-end at its fixed path, then the canonical
/// tool.
pub open spec fn spec_apt_tool(apt_fast: Option<Seq<char>>, mist: bool, nala: bool) -> Seq<char> {
    match apt_fast {
        Some(p) => p,
        None => {
            if mist {
                "mist"@
            } else if nala {
                "/usr/bin/nala"@
            } else {
                "apt-get"@
            }
        },
    }
}

/// Whether the selected front-end is the unprivileged store front-end.
pub open spec fn apt_is_mist(apt_fast: Option<Seq<char>>, mist: bool) -> bool {
    apt_fast is None && mist
}

/// Whether the selected front-end is the friendlier front-end.
pub open spec fn apt_is_nala(apt_fast: Option<Seq<char>>, mist: bool, nala: bool) -> bool {
    apt_fast is None && !mist && nala
}

/// Selects the apt-family front-end from the three probe results.
pub fn select_apt_tool(apt_fast: Option<&String>, mist: bool, nala: bool) -> (r: String)
    ensures
        r@ == spec_apt_tool(opt_view(apt_fast), mist, nala),
{
    match apt_fast {
        Some(p) => p.clone(),
        None => {
            if mist {
                "mist".to_owned()
            } else if nala {
                "/usr/bin/nala".to_owned()
            } else {
                "apt-get".to_owned()
            }
        },
    }
}

/// The Debian family procedure. The unprivileged store front-end needs
/// no elevation and knows no cleanup phase; the friendlier front-end
/// folds the refresh into its upgrade and renames the subcommand; the
/// refresh of the others tolerates the benign lists-changed exit code;
/// and the policy-gated cleanup phase cleans and auto-removes.
pub open spec fn spec_upgrade_debian(
    sudo: Option<Seq<char>>,
    apt_fast: Option<Seq<char>>,
    mist: bool,
    nala: bool,
    yes: bool,
    apt_args: Option<Seq<char>>,
    cleanup: bool,
) -> Result<Seq<CmdView>, TopgradeError> {
    let tool = spec_apt_tool(apt_fast, mist, nala);
    if apt_is_mist(apt_fast, mist) {
        Ok(seq![cmd(tool, seq!["update"@]), cmd(tool, seq!["upgrade"@])])
    } else {
        match sudo {
            None => Err(TopgradeError::SudoRequired),
            Some(s) => {
                let is_nala = apt_is_nala(apt_fast, mist, nala);
                let refresh = if !is_nala {
                    seq![
                        CmdView { ok_codes: seq![0i32, 100i32], ..cmd(s, seq![tool, "update"@]) },
                    ]
                } else {
                    Seq::empty()
                };
                let upg_base = seq![
                    tool,
                    if is_nala {
                        "upgrade"@
                    } else {
                        "dist-upgrade"@
                    },
                ];
                let upg_yes = if yes {
                    upg_base.push("-y"@)
                } else {
                    upg_base
                };
                let upg_full = match apt_args {
                    Some(a) => upg_yes + tokens(a),
                    None => upg_yes,
                };
                let main = refresh + seq![cmd(s, upg_full)];
                Ok(
                    if cleanup {
                        let auto = seq![tool, "autoremove"@];
                        main + seq![
                            cmd(s, seq![tool, "clean"@]),
                            cmd(
                                s,
                                if yes {
                                    auto.push("-y"@)
                                } else {
                                    auto
                                },
                            ),
                        ]
                    } else {
                        main
                    },
                )
            },
        }
    }
}

/// The Debian family procedure.
pub fn upgrade_debian(
    ctx: &ExecutionContext,
    apt_fast: Option<&String>,
    mist: bool,
    nala: bool,
) -> (r: Result<Vec<ExecutionRequest>, TopgradeError>)
    ensures
        plan_result_views(r) == spec_upgrade_debian(
            opt_owned_view(ctx.sudo),
            opt_view(apt_fast),
            mist,
            nala,
            ctx.config.spec_yes(Step::System),
            opt_owned_view(ctx.config.apt_arguments),
            ctx.config.cleanup,
        ),
{
    let apt = select_apt_tool(apt_fast, mist, nala);
    let is_mist = apt_fast.is_none() && mist;
    let is_nala = apt_fast.is_none() && !mist && nala;
    if is_mist {
        // This front-end requires no elevation and has neither a
        // cleanup nor an auto-remove subcommand, so the procedure ends
        // after its two phases.
        let mut update = ExecutionRequest::new_string(&apt);
        update.arg("update");
        let mut upgrade = ExecutionRequest::new_string(&apt);
        upgrade.arg("upgrade");
        let mut p: Vec<ExecutionRequest> = Vec::new();
        p.push(update);
        p.push(upgrade);
        proof {
            assert(cmd_views(p@) =~~= spec_upgrade_debian(
                opt_owned_view(ctx.sudo),
                opt_view(apt_fast),
                mist,
                nala,
                ctx.config.spec_yes(Step::System),
                opt_owned_view(ctx.config.apt_arguments),
                ctx.config.cleanup,
            ).unwrap());
        }
        return Ok(p);
    }
    let sudo = match &ctx.sudo {
        Some(s) => s,
        None => {
            return Err(TopgradeError::SudoRequired);
        },
    };
    let mut p: Vec<ExecutionRequest> = Vec::new();
    if !is_nala {
        let mut refresh = ExecutionRequest::new_string(sudo);
        refresh.arg_string(&apt);
        refresh.arg("update");
        // The refresh tolerates the benign lists-changed exit code.
        refresh.ok_code(0);
        refresh.ok_code(100);
        p.push(refresh);
    }
    let mut upgrade = ExecutionRequest::new_string(sudo);
    upgrade.arg_string(&apt);
    if is_nala {
        upgrade.arg("upgrade");
    } else {
        upgrade.arg("dist-upgrade");
    }
    if ctx.config.yes(Step::System) {
        upgrade.arg("-y");
    }
    if let Some(args) = &ctx.config.apt_arguments {
        upgrade.args_split(args.as_str());
    }
    p.push(upgrade);
    if ctx.config.cleanup {
        let mut clean = ExecutionRequest::new_string(sudo);
        clean.arg_string(&apt);
        clean.arg("clean");
        p.push(clean);
        let mut auto = ExecutionRequest::new_string(sudo);
        auto.arg_string(&apt);
        auto.arg("autoremove");
        if ctx.config.yes(Step::System) {
            auto.arg("-y");
        }
        p.push(auto);
    }
    proof {
        assert(cmd_views(p@) =~~= spec_upgrade_debian(
            opt_owned_view(ctx.sudo),
            opt_view(apt_fast),
            mist,
            nala,
            ctx.config.spec_yes(Step::System),
            opt_owned_view(ctx.config.apt_arguments),
            ctx.config.cleanup,
        ).unwrap());
    }
    Ok(p)
}

/// The probe results the dispatch engine consumes: for each optional
/// tool, the path the caller's lookup found, if any; plus the two plain
/// existence facts of the apt-family front-end chain.
pub struct ToolProbes {
    pub apk: Option<String>,
    pub bootc: Option<String>,
    pub rpm_ostree: Option<String>,
    pub dnf: Option<String>,
    pub opkg: Option<String>,
    pub apx: Option<String>,
    pub apt_fast: Option<String>,
    /// Whether the unprivileged store front-end is installed.
    pub mist: bool,
    /// Whether the friendlier apt front-end stands at its fixed path.
    pub nala: bool,
    pub apt_get: Option<String>,
    pub layman: Option<String>,
    pub ego: Option<String>,
    pub eix_update: Option<String>,
    pub pkcon: Option<String>,
}

/// What the dispatch engine hands back for one variant.
pub enum Procedure {
    /// The ordered execution requests to carry out, first failure wins.
    Run(Vec<ExecutionRequest>),
    /// The Arch family procedure, which lives in its own module beside
    /// this core and is delegated to as a whole.
    ArchLinux,
    /// The multi-strata flow: carry out this capturing probe, then hand
    /// each line of its output to [`bedrock_member_plan`].
    BedrockScan(ExecutionRequest),
}

/// Mathematical view of a [`Procedure`].
pub enum ProcView {
    Run(Seq<CmdView>),
    ArchLinux,
    BedrockScan(CmdView),
}

/// The view of a whole dispatch result.
pub open spec fn proc_result_views(r: Result<Procedure, TopgradeError>) -> Result<
    ProcView,
    TopgradeError,
> {
    match r {
        Ok(Procedure::Run(p)) => Ok(ProcView::Run(cmd_views(p@))),
        Ok(Procedure::ArchLinux) => Ok(ProcView::ArchLinux),
        Ok(Procedure::BedrockScan(req)) => Ok(ProcView::BedrockScan(req@)),
        Err(e) => Err(e),
    }
}

/// Lifts a plan into a dispatch result.
pub open spec fn lift_plan(r: Result<Seq<CmdView>, TopgradeError>) -> Result<
    ProcView,
    TopgradeError,
> {
    match r {
        Ok(p) => Ok(ProcView::Run(p)),
        Err(e) => Err(e),
    }
}

/// The multi-strata entry: elevation must be available, and the member
/// strata are then enumerated by a capturing list probe.
pub open spec fn spec_update_bedrock(sudo: Option<Seq<char>>) -> Result<CmdView, TopgradeError> {
    match sudo {
        None => Err(TopgradeError::SudoRequired),
        Some(_) => Ok(CmdView { capture: true, ..cmd("brl"@, seq!["list"@]) }),
    }
}

/// Opens the multi-strata procedure: checks elevation and returns the
/// capturing probe whose output lists the member strata, one per line.
pub fn update_bedrock(ctx: &ExecutionContext) -> (r: Result<ExecutionRequest, TopgradeError>)
    ensures
        match r {
            Ok(req) => ctx.sudo is Some && Ok::<CmdView, TopgradeError>(req@)
                == spec_update_bedrock(opt_owned_view(ctx.sudo)),
            Err(e) => ctx.sudo is None && e == TopgradeError::SudoRequired,
        },
{
    if ctx.sudo.is_none() {
        return Err(TopgradeError::SudoRequired);
    }
    let mut probe = ExecutionRequest::new("brl");
    probe.arg("list");
    probe.capture_output();
    proof {
        assert(probe@ =~~= (CmdView { capture: true, ..cmd("brl"@, seq!["list"@]) }));
    }
    Ok(probe)
}

/// The member strata named by the list probe's output: its lines, after
/// trimming the output as a whole.
pub fn bedrock_members(listing: &str) -> (r: Vec<String>)
    ensures
        views_of(r@) == line_seqs(trimmed(listing@)),
{
    let t = trim_str(listing);
    split_lines(t.as_str())
}

/// A member stratum of the multi-strata layer, by the identifier the
/// strata manager lists it under.
#[derive(Copy, Clone, Debug, PartialEq, Eq, Structural)]
pub enum BedrockMember {
    Arch,
    Debian,
    Redhat,
    Bedrock,
    Unknown,
}

/// The family a listed member identifier belongs to.
pub open spec fn spec_bedrock_member(name: Seq<char>) -> BedrockMember {
    if name == "arch"@ {
        BedrockMember::Arch
    } else if name == "debian"@ || name == "ubuntu"@ || name == "linuxmint"@ {
        BedrockMember::Debian
    } else if name == "centos"@ || name == "fedora"@ {
        BedrockMember::Redhat
    } else if name == "bedrock"@ {
        BedrockMember::Bedrock
    } else {
        BedrockMember::Unknown
    }
}

/// Classifies one listed member identifier.
pub fn classify_bedrock_member(name: &str) -> (r: BedrockMember)
    ensures
        r == spec_bedrock_member(name@),
{
    if str_eq(name, "arch") {
        BedrockMember::Arch
    } else if str_eq(name, "debian") || str_eq(name, "ubuntu") || str_eq(name, "linuxmint") {
        BedrockMember::Debian
    } else if str_eq(name, "centos") || str_eq(name, "fedora") {
        BedrockMember::Redhat
    } else if str_eq(name, "bedrock") {
        BedrockMember::Bedrock
    } else {
        BedrockMember::Unknown
    }
}

/// The procedure for one listed member stratum: the matching family
/// procedure, the Arch delegation, or nothing at all for an identifier
/// that is not recognised, which is logged and passed over rather than
/// failed.
pub open spec fn spec_bedrock_member_plan(
    ctx: ExecutionContext,
    probes: ToolProbes,
    name: Seq<char>,
) -> Result<Option<ProcView>, TopgradeError> {
    let sudo = opt_owned_view(ctx.sudo);
    match spec_bedrock_member(name) {
        BedrockMember::Arch => Ok(Some(ProcView::ArchLinux)),
        BedrockMember::Debian => match spec_upgrade_debian(
            sudo,
            opt_owned_view(probes.apt_fast),
            probes.mist,
            probes.nala,
            ctx.config.spec_yes(Step::System),
            opt_owned_view(ctx.config.apt_arguments),
            ctx.config.cleanup,
        ) {
            Ok(p) => Ok(Some(ProcView::Run(p))),
            Err(e) => Err(e),
        },
        BedrockMember::Redhat => match spec_upgrade_redhat(
            sudo,
            opt_owned_view(probes.bootc),
            opt_owned_view(probes.rpm_ostree),
            opt_owned_view(probes.dnf),
            ctx.config.bootc,
            ctx.config.rpm_ostree,
            ctx.config.redhat_distro_sync,
            opt_owned_view(ctx.config.dnf_arguments),
            ctx.config.spec_yes(Step::System),
        ) {
            Ok(p) => Ok(Some(ProcView::Run(p))),
            Err(e) => Err(e),
        },
        BedrockMember::Bedrock => match spec_upgrade_bedrock_strata(sudo) {
            Ok(p) => Ok(Some(ProcView::Run(p))),
            Err(e) => Err(e),
        },
        BedrockMember::Unknown => Ok(None),
    }
}

/// Plans the procedure for one listed member stratum.
pub fn bedrock_member_plan(ctx: &ExecutionContext, probes: &ToolProbes, name: &str) -> (r: Result<
    Option<Procedure>,
    TopgradeError,
>)
    ensures
        match r {
            Ok(None) => spec_bedrock_member_plan(*ctx, *probes, name@) == Ok::<
                Option<ProcView>,
                TopgradeError,
            >(None),
            Ok(Some(Procedure::Run(p))) => spec_bedrock_member_plan(*ctx, *probes, name@) == Ok::<
                Option<ProcView>,
                TopgradeError,
            >(Some(ProcView::Run(cmd_views(p@)))),
            Ok(Some(Procedure::ArchLinux)) => spec_bedrock_member_plan(*ctx, *probes, name@)
                == Ok::<Option<ProcView>, TopgradeError>(Some(ProcView::ArchLinux)),
            Ok(Some(Procedure::BedrockScan(_))) => false,
            Err(e) => spec_bedrock_member_plan(*ctx, *probes, name@) == Err::<
                Option<ProcView>,
                TopgradeError,
            >(e),
        },
{
    match classify_bedrock_member(name) {
        BedrockMember::Arch => Ok(Some(Procedure::ArchLinux)),
        BedrockMember::Debian => {
            match upgrade_debian(ctx, probes.apt_fast.as_ref(), probes.mist, probes.nala) {
                Ok(p) => Ok(Some(Procedure::Run(p))),
                Err(e) => Err(e),
            }
        },
        BedrockMember::Redhat => {
            match upgrade_redhat(
                ctx,
                probes.bootc.as_ref(),
                probes.rpm_ostree.as_ref(),
                probes.dnf.as_ref(),
            ) {
                Ok(p) => Ok(Some(Procedure::Run(p))),
                Err(e) => Err(e),
            }
        },
        BedrockMember::Bedrock => {
            match upgrade_bedrock_strata(ctx) {
                Ok(p) => Ok(Some(Procedure::Run(p))),
                Err(e) => Err(e),
            }
        },
        BedrockMember::Unknown => Ok(None),
    }
}

/// The dispatch table: for each variant, exactly one procedure.
pub open spec fn spec_upgrade(d: Distribution, ctx: ExecutionContext, probes: ToolProbes) -> Result<
    ProcView,
    TopgradeError,
> {
    let sudo = opt_owned_view(ctx.sudo);
    let yes = ctx.config.spec_yes(Step::System);
    match d {
        Distribution::Alpine => lift_plan(spec_apk_plan(sudo, opt_owned_view(probes.apk))),
        Distribution::Chimera => lift_plan(spec_apk_plan(sudo, opt_owned_view(probes.apk))),
        Distribution::Wolfi => lift_plan(spec_apk_plan(sudo, opt_owned_view(probes.apk))),
        Distribution::Arch => Ok(ProcView::ArchLinux),
        Distribution::CentOS | Distribution::Fedora => lift_plan(
            spec_upgrade_redhat(
                sudo,
                opt_owned_view(probes.bootc),
                opt_owned_view(probes.rpm_ostree),
                opt_owned_view(probes.dnf),
                ctx.config.bootc,
                ctx.config.rpm_ostree,
                ctx.config.redhat_distro_sync,
                opt_owned_view(ctx.config.dnf_arguments),
                yes,
            ),
        ),
        Distribution::FedoraImmutable => lift_plan(
            spec_upgrade_fedora_immutable(
                sudo,
                opt_owned_view(probes.bootc),
                opt_owned_view(probes.rpm_ostree),
                ctx.config.bootc,
            ),
        ),
        Distribution::ClearLinux => lift_plan(spec_upgrade_clearlinux(sudo, yes)),
        Distribution::Debian => lift_plan(
            spec_upgrade_debian(
                sudo,
                opt_owned_view(probes.apt_fast),
                probes.mist,
                probes.nala,
                yes,
                opt_owned_view(ctx.config.apt_arguments),
                ctx.config.cleanup,
            ),
        ),
        Distribution::Gentoo => lift_plan(
            spec_upgrade_gentoo(
                sudo,
                opt_owned_view(probes.layman),
                opt_owned_view(probes.ego),
                opt_owned_view(probes.eix_update),
                opt_owned_view(ctx.config.emerge_sync_flags),
                opt_owned_view(ctx.config.emerge_update_flags),
            ),
        ),
        Distribution::Suse => lift_plan(spec_upgrade_suse(sudo, ctx.config.suse_dup, yes)),
        Distribution::SuseMicro => lift_plan(spec_upgrade_suse_micro(sudo, yes)),
        Distribution::OpenSuseTumbleweed => lift_plan(spec_upgrade_opensuse_tumbleweed(sudo, yes)),
        Distribution::Vanilla => lift_plan(
            spec_upgrade_vanilla(opt_owned_view(probes.apx), yes),
        ),
        Distribution::Void => lift_plan(spec_upgrade_void(sudo, yes)),
        Distribution::Solus => lift_plan(spec_upgrade_solus(sudo, yes)),
        Distribution::Exherbo => lift_plan(spec_upgrade_exherbo(sudo, ctx.config.cleanup)),
        Distribution::NixOS => lift_plan(
            spec_upgrade_nixos(sudo, opt_owned_view(ctx.config.nix_arguments), ctx.config.cleanup),
        ),
        Distribution::KDENeon => lift_plan(
            spec_upgrade_neon(sudo, opt_owned_view(probes.pkcon).unwrap(), yes, ctx.config.cleanup),
        ),
        Distribution::Bedrock => match spec_update_bedrock(sudo) {
            Ok(c) => Ok(ProcView::BedrockScan(c)),
            Err(e) => Err(e),
        },
        Distribution::OpenMandriva => lift_plan(
            spec_upgrade_openmandriva(
                sudo,
                opt_owned_view(probes.dnf).unwrap(),
                opt_owned_view(ctx.config.dnf_arguments),
                yes,
            ),
        ),
        Distribution::PCLinuxOS => lift_plan(
            spec_upgrade_pclinuxos(
                sudo,
                opt_owned_view(probes.apt_get).unwrap(),
                opt_owned_view(ctx.config.dnf_arguments),
                yes,
            ),
        ),
        Distribution::Nobara => lift_plan(
            spec_upgrade_nobara(sudo, opt_owned_view(probes.dnf), yes),
        ),
        Distribution::NILRT => lift_plan(spec_upgrade_nilrt(sudo, opt_owned_view(probes.opkg))),
    }
}

impl Distribution {
    /// Runs the dispatch: exactly one procedure per resolved variant,
    /// built from the policy and the gathered probes. The three
    /// variants whose procedure takes its package manager for granted
    /// require the matching probe to have found it.
    pub fn upgrade(self, ctx: &ExecutionContext, probes: &ToolProbes) -> (r: Result<
        Procedure,
        TopgradeError,
    >)
        requires
            self == Distribution::KDENeon ==> probes.pkcon is Some,
            self == Distribution::OpenMandriva ==> probes.dnf is Some,
            self == Distribution::PCLinuxOS ==> probes.apt_get is Some,
        ensures
            proc_result_views(r) == spec_upgrade(self, *ctx, *probes),
    {
        match self {
            Distribution::Alpine => match upgrade_alpine_linux(ctx, probes.apk.as_ref()) {
                Ok(p) => Ok(Procedure::Run(p)),
                Err(e) => Err(e),
            },
            Distribution::Chimera => match upgrade_chimera_linux(ctx, probes.apk.as_ref()) {
                Ok(p) => Ok(Procedure::Run(p)),
                Err(e) => Err(e),
            },
            Distribution::Wolfi => match upgrade_wolfi_linux(ctx, probes.apk.as_ref()) {
                Ok(p) => Ok(Procedure::Run(p)),
                Err(e) => Err(e),
            },
            Distribution::Arch => Ok(Procedure::ArchLinux),
            Distribution::CentOS | Distribution::Fedora => {
                match upgrade_redhat(
                    ctx,
                    probes.bootc.as_ref(),
                    probes.rpm_ostree.as_ref(),
                    probes.dnf.as_ref(),
                ) {
                    Ok(p) => Ok(Procedure::Run(p)),
                    Err(e) => Err(e),
                }
            },
            Distribution::FedoraImmutable => {
                match upgrade_fedora_immutable(ctx, probes.bootc.as_ref(), probes.rpm_ostree.as_ref()) {
                    Ok(p) => Ok(Procedure::Run(p)),
                    Err(e) => Err(e),
                }
            },
            Distribution::ClearLinux => match upgrade_clearlinux(ctx) {
                Ok(p) => Ok(Procedure::Run(p)),
                Err(e) => Err(e),
            },
            Distribution::Debian => {
                match upgrade_debian(ctx, probes.apt_fast.as_ref(), probes.mist, probes.nala) {
                    Ok(p) => Ok(Procedure::Run(p)),
                    Err(e) => Err(e),
                }
            },
            Distribution::Gentoo => {
                match upgrade_gentoo(
                    ctx,
                    probes.layman.as_ref(),
                    probes.ego.as_ref(),
                    probes.eix_update.as_ref(),
                ) {
                    Ok(p) => Ok(Procedure::Run(p)),
                    Err(e) => Err(e),
                }
            },
            Distribution::Suse => match upgrade_suse(ctx) {
                Ok(p) => Ok(Procedure::Run(p)),
                Err(e) => Err(e),
            },
            Distribution::SuseMicro => match upgrade_suse_micro(ctx) {
                Ok(p) => Ok(Procedure::Run(p)),
                Err(e) => Err(e),
            },
            Distribution::OpenSuseTumbleweed => match upgrade_opensuse_tumbleweed(ctx) {
                Ok(p) => Ok(Procedure::Run(p)),
                Err(e) => Err(e),
            },
            Distribution::Vanilla => match upgrade_vanilla(ctx, probes.apx.as_ref()) {
                Ok(p) => Ok(Procedure::Run(p)),
                Err(e) => Err(e),
            },
            Distribution::Void => match upgrade_void(ctx) {
                Ok(p) => Ok(Procedure::Run(p)),
                Err(e) => Err(e),
            },
            Distribution::Solus => match upgrade_solus(ctx) {
                Ok(p) => Ok(Procedure::Run(p)),
                Err(e) => Err(e),
            },
            Distribution::Exherbo => match upgrade_exherbo(ctx) {
                Ok(p) => Ok(Procedure::Run(p)),
                Err(e) => Err(e),
            },
            Distribution::NixOS => match upgrade_nixos(ctx) {
                Ok(p) => Ok(Procedure::Run(p)),
                Err(e) => Err(e),
            },
            Distribution::KDENeon => match upgrade_neon(ctx, probes.pkcon.as_ref()) {
                Ok(p) => Ok(Procedure::Run(p)),
                Err(e) => Err(e),
            },
            Distribution::Bedrock => match update_bedrock(ctx) {
                Ok(req) => Ok(Procedure::BedrockScan(req)),
                Err(e) => Err(e),
            },
            Distribution::OpenMandriva => match upgrade_openmandriva(ctx, probes.dnf.as_ref()) {
                Ok(p) => Ok(Procedure::Run(p)),
                Err(e) => Err(e),
            },
            Distribution::PCLinuxOS => match upgrade_pclinuxos(ctx, probes.apt_get.as_ref()) {
                Ok(p) => Ok(Procedure::Run(p)),
                Err(e) => Err(e),
            },
            Distribution::Nobara => match upgrade_nobara(ctx, probes.dnf.as_ref()) {
                Ok(p) => Ok(Procedure::Run(p)),
                Err(e) => Err(e),
            },
            Distribution::NILRT => match upgrade_nilrt(ctx, probes.opkg.as_ref()) {
                Ok(p) => Ok(Procedure::Run(p)),
                Err(e) => Err(e),
            },
        }
    }
}

} // verus!
