//! The shell-module updater: discovery of the newer or older shell,
//! its profile, execution-policy inspection, module updates, and the
//! platform update paths driven through it.
//!
//! All probing output is captured by the caller and handed back in as
//! plain values; the decisions on it are verified here.

use vstd::prelude::*;

use vstd::string::StringExecFns;

use crate::config::{ExecutionContext, Step, UpdatesAutoReboot};
use crate::exec::{cmd, CmdView, ExecutionRequest};
use crate::text::trimmed;
use crate::upgrade::opt_owned_view;
use crate::TopgradeError;

verus! {

/// Mathematical view of a [`Powershell`].
#[verifier::ext_equal]
pub struct PsView {
    pub path: Seq<char>,
    pub profile: Option<Seq<char>>,
    pub is_pwsh: bool,
}

/// A discovered shell installation: its binary, its profile directory
/// once resolved, and whether it is the newer cross-platform shell.
pub struct Powershell {
    pub path: String,
    pub profile: Option<String>,
    pub is_pwsh: bool,
}

impl View for Powershell {
    type V = PsView;

    open spec fn view(&self) -> PsView {
        PsView {
            path: self.path@,
            profile: match self.profile {
                Some(ref p) => Some(p@),
                None => None,
            },
            is_pwsh: self.is_pwsh,
        }
    }
}

/// An internal query command of the shell: no profile, one command
/// string, output captured; the inherited module path is dropped when
/// driving the older shell from the newer one, where it breaks module
/// imports.
pub open spec fn spec_internal_command(ps: PsView, cmd_text: Seq<char>) -> CmdView {
    CmdView {
        env_remove: if ps.is_pwsh {
            Seq::empty()
        } else {
            seq!["PSModulePath"@]
        },
        capture: true,
        ..cmd(ps.path, seq!["-NoProfile"@, "-Command"@, cmd_text])
    }
}

/// A primary command of the shell: the same shape as the internal one
/// but shown rather than captured, and elevated when asked for and an
/// elevation command is configured.
pub open spec fn spec_primary_command(
    ps: PsView,
    sudo: Option<Seq<char>>,
    cmd_text: Seq<char>,
    use_sudo: bool,
) -> CmdView {
    let env_remove = if ps.is_pwsh {
        Seq::<Seq<char>>::empty()
    } else {
        seq!["PSModulePath"@]
    };
    match sudo {
        Some(s) => {
            if use_sudo {
                CmdView {
                    env_remove,
                    ..cmd(s, seq![ps.path, "-NoProfile"@, "-Command"@, cmd_text])
                }
            } else {
                CmdView { env_remove, ..cmd(ps.path, seq!["-NoProfile"@, "-Command"@, cmd_text]) }
            }
        },
        None => CmdView { env_remove, ..cmd(ps.path, seq!["-NoProfile"@, "-Command"@, cmd_text]) },
    }
}

/// The command string of the module update, grown from the policy.
pub open spec fn spec_update_modules_text(verbose: bool, yes: bool) -> Seq<char> {
    "Update-Module"@ + (if verbose {
        " -Verbose"@
    } else {
        Seq::empty()
    }) + (if yes {
        " -Force"@
    } else {
        Seq::empty()
    })
}

/// The ordering of execution policies, most restrictive first; an
/// unknown policy name orders nowhere.
pub open spec fn spec_policy_index(p: Seq<char>) -> Option<int> {
    if p == "Restricted"@ {
        Some(0)
    } else if p == "AllSigned"@ {
        Some(1)
    } else if p == "RemoteSigned"@ {
        Some(2)
    } else if p == "Unrestricted"@ {
        Some(3)
    } else if p == "Bypass"@ {
        Some(4)
    } else {
        None
    }
}

/// Whether the reported current policy is at least as permissive as the
/// target one; unknown on either side is never enough.
pub open spec fn spec_policy_at_least(current_stdout: Seq<char>, policy: Seq<char>) -> bool {
    match (spec_policy_index(trimmed(current_stdout)), spec_policy_index(policy)) {
        (Some(c), Some(t)) => c >= t,
        _ => false,
    }
}

impl Powershell {
    /// Discovery: nothing on a terminal too dumb to drive the shell,
    /// else the newer cross-platform shell when its lookup found it,
    /// else the older shell, else nothing. The profile is unresolved
    /// until [`Powershell::set_profile`] supplies it.
    pub fn new(dumb_terminal: bool, pwsh: Option<String>, powershell: Option<String>) -> (r:
        Option<Powershell>)
        ensures
            dumb_terminal ==> r is None,
            !dumb_terminal && pwsh is Some ==> (r matches Some(ps) && ps@ == (PsView {
                path: pwsh.unwrap()@,
                profile: None,
                is_pwsh: true,
            })),
            !dumb_terminal && pwsh is None && powershell is Some ==> (r matches Some(ps) && ps@
                == (PsView { path: powershell.unwrap()@, profile: None, is_pwsh: false })),
            !dumb_terminal && pwsh is None && powershell is None ==> r is None,
    {
        if dumb_terminal {
            return None;
        }
        match pwsh {
            Some(p) => Some(Powershell { path: p, profile: None, is_pwsh: true }),
            None => match powershell {
                Some(p) => Some(Powershell { path: p, profile: None, is_pwsh: false }),
                None => None,
            },
        }
    }

    /// The resolved profile directory, if any.
    pub fn profile(&self) -> (r: &Option<String>)
        ensures
            r == &self.profile,
            self@.profile matches Some(v) ==> r matches Some(p) && p@ == v,
            self@.profile is None ==> r is None,
    {
        &self.profile
    }

    /// Stores the resolved profile directory: the caller runs
    /// [`Powershell::profile_query`], trims its output, checks the path
    /// exists, and hands the outcome back here.
    pub fn set_profile(&mut self, profile: Option<String>)
        ensures
            final(self)@ == (PsView {
                profile: opt_owned_view(profile),
                ..old(self)@
            }),
    {
        self.profile = profile;
        proof {
            assert(self@ =~~= (PsView { profile: opt_owned_view(self.profile), ..old(self)@ }));
        }
    }

    /// The internal query whose trimmed output names the profile
    /// directory.
    pub fn profile_query(&self) -> (r: ExecutionRequest)
        ensures
            r@ == spec_internal_command(self@, "Split-Path $PROFILE"@),
    {
        self.build_command_internal("Split-Path $PROFILE")
    }

    /// Builds an internal query command of this shell.
    pub fn build_command_internal(&self, cmd_text: &str) -> (r: ExecutionRequest)
        ensures
            r@ == spec_internal_command(self@, cmd_text@),
    {
        let mut r = ExecutionRequest::new_string(&self.path);
        r.arg("-NoProfile");
        r.arg("-Command");
        r.arg(cmd_text);
        if !self.is_pwsh {
            r.remove_env("PSModulePath");
        }
        r.capture_output();
        proof {
            assert(r@ =~~= spec_internal_command(self@, cmd_text@));
        }
        r
    }

    /// Builds a primary command of this shell, elevated when asked for
    /// and an elevation command is configured.
    pub fn build_command(&self, ctx: &ExecutionContext, cmd_text: &str, use_sudo: bool) -> (r:
        ExecutionRequest)
        ensures
            r@ == spec_primary_command(self@, opt_owned_view(ctx.sudo), cmd_text@, use_sudo),
    {
        let mut r = if use_sudo && ctx.sudo.is_some() {
            match &ctx.sudo {
                Some(sudo) => {
                    let mut c = ExecutionRequest::new_string(sudo);
                    c.arg_string(&self.path);
                    c
                },
                None => {
                    proof {
                        assert(false);
                    }
                    ExecutionRequest::new_string(&self.path)
                },
            }
        } else {
            ExecutionRequest::new_string(&self.path)
        };
        r.arg("-NoProfile");
        r.arg("-Command");
        r.arg(cmd_text);
        if !self.is_pwsh {
            r.remove_env("PSModulePath");
        }
        proof {
            assert(r@ =~~= spec_primary_command(
                self@,
                opt_owned_view(ctx.sudo),
                cmd_text@,
                use_sudo,
            ));
        }
        r
    }

    /// The module update: one primary command grown from the policy.
    /// The newer shell updates per user and needs no elevation; the
    /// older one defaults to the machine-wide scope and is elevated
    /// when an elevation command is configured.
    pub fn update_modules(&self, ctx: &ExecutionContext) -> (r: ExecutionRequest)
        ensures
            r@ == spec_primary_command(
                self@,
                opt_owned_view(ctx.sudo),
                spec_update_modules_text(
                    ctx.config.verbose,
                    ctx.config.spec_yes(Step::Powershell),
                ),
                !self@.is_pwsh,
            ),
    {
        let mut cmd_text = "Update-Module".to_owned();
        if ctx.config.verbose {
            cmd_text.append(" -Verbose");
        }
        if ctx.config.yes(Step::Powershell) {
            cmd_text.append(" -Force");
        }
        proof {
            assert(cmd_text@ =~= spec_update_modules_text(
                ctx.config.verbose,
                ctx.config.spec_yes(Step::Powershell),
            ));
        }
        let use_sudo = !self.is_pwsh;
        self.build_command(ctx, cmd_text.as_str(), use_sudo)
    }

    /// Whether the policy the shell reported is at least as permissive
    /// as `policy`. `current_stdout` is the captured output of an
    /// internal policy query; it is trimmed here.
    pub fn is_execution_policy_set(&self, policy: &str, current_stdout: &str) -> (r: bool)
        ensures
            r == spec_policy_at_least(current_stdout@, policy@),
    {
        let current = crate::text::trim_str(current_stdout);
        let cur_idx = Self::policy_index(current.as_str());
        let tgt_idx = Self::policy_index(policy);
        match (cur_idx, tgt_idx) {
            (Some(c), Some(t)) => c >= t,
            _ => false,
        }
    }

    /// The position of a policy name in the fixed restrictive-to-open
    /// ordering.
    fn policy_index(p: &str) -> (r: Option<usize>)
        ensures
            match r {
                Some(i) => spec_policy_index(p@) == Some(i as int),
                None => spec_policy_index(p@) is None,
            },
    {
        if crate::text::str_eq(p, "Restricted") {
            Some(0)
        } else if crate::text::str_eq(p, "AllSigned") {
            Some(1)
        } else if crate::text::str_eq(p, "RemoteSigned") {
            Some(2)
        } else if crate::text::str_eq(p, "Unrestricted") {
            Some(3)
        } else if crate::text::str_eq(p, "Bypass") {
            Some(4)
        } else {
            None
        }
    }

    /// The internal query whose trimmed output names the current
    /// execution policy.
    pub fn execution_policy_query(&self) -> (r: ExecutionRequest)
        ensures
            r@ == spec_internal_command(self@, "Get-ExecutionPolicy"@),
    {
        self.build_command_internal("Get-ExecutionPolicy")
    }

    /// Fails unless the reported execution policy is at least the
    /// remotely-signed one, under which the update commands can run.
    pub fn execution_policy_args_if_needed(&self, current_stdout: &str) -> (r: Result<
        (),
        TopgradeError,
    >)
        ensures
            r is Ok <==> spec_policy_at_least(current_stdout@, "RemoteSigned"@),
            r is Err ==> r == Err::<(), TopgradeError>(TopgradeError::ExecutionPolicy),
    {
        if self.is_execution_policy_set("RemoteSigned", current_stdout) {
            Ok(())
        } else {
            Err(TopgradeError::ExecutionPolicy)
        }
    }

    /// The internal query listing one module's availability.
    pub fn has_module_request(&self, module_name: &str) -> (r: ExecutionRequest)
        ensures
            r@ == spec_internal_command(
                self@,
                "Get-Module -ListAvailable "@ + module_name@,
            ),
    {
        let mut cmd_text = "Get-Module -ListAvailable ".to_owned();
        cmd_text.append(module_name);
        self.build_command_internal(cmd_text.as_str())
    }

    /// Whether a module query's outcome reports the module: the query
    /// succeeded and its trimmed output is non-empty.
    pub fn has_module(&self, query_ok: bool, stdout: &str) -> (r: bool)
        ensures
            r == (query_ok && trimmed(stdout@).len() > 0),
    {
        let _ = self;
        if !query_ok {
            return false;
        }
        let t = crate::text::trim_str(stdout);
        t.as_str().unicode_len() > 0
    }

    /// The query for the platform update module.
    pub fn supports_windows_update_request(&self) -> (r: ExecutionRequest)
        ensures
            r@ == spec_internal_command(
                self@,
                "Get-Module -ListAvailable "@ + "PSWindowsUpdate"@,
            ),
    {
        self.has_module_request("PSWindowsUpdate")
    }

    /// Whether the platform update module is available, from its
    /// query's outcome.
    pub fn supports_windows_update(&self, query_ok: bool, stdout: &str) -> (r: bool)
        ensures
            r == (query_ok && trimmed(stdout@).len() > 0),
    {
        self.has_module(query_ok, stdout)
    }

    /// The platform update: one elevated primary command importing the
    /// update module and installing everything, with accept-all and the
    /// reboot policy folded into the command string. Only meaningful
    /// where [`Powershell::supports_windows_update`] reported the
    /// module.
    pub fn windows_update(&self, ctx: &ExecutionContext) -> (r: ExecutionRequest)
        ensures
            r@ == spec_primary_command(
                self@,
                opt_owned_view(ctx.sudo),
                spec_windows_update_text(
                    ctx.config.accept_all_windows_updates,
                    ctx.config.windows_updates_auto_reboot,
                ),
                true,
            ),
    {
        let mut cmd_text = "Import-Module PSWindowsUpdate; Install-WindowsUpdate -Verbose"
            .to_owned();
        if ctx.config.accept_all_windows_updates {
            cmd_text.append(" -AcceptAll");
        }
        match ctx.config.windows_updates_auto_reboot {
            UpdatesAutoReboot::Yes => cmd_text.append(" -AutoReboot"),
            UpdatesAutoReboot::No => cmd_text.append(" -IgnoreReboot"),
            UpdatesAutoReboot::Ask => (),  // prompting is the tool's default
        }
        proof {
            assert(cmd_text@ =~= spec_windows_update_text(
                ctx.config.accept_all_windows_updates,
                ctx.config.windows_updates_auto_reboot,
            ));
        }
        self.build_command(ctx, cmd_text.as_str(), true)
    }

    /// The store update scan: one elevated primary command whose
    /// captured output reports the scan method's return value.
    pub fn microsoft_store(&self, ctx: &ExecutionContext) -> (r: ExecutionRequest)
        ensures
            r@ == (CmdView {
                capture: true,
                ..spec_primary_command(
                    self@,
                    opt_owned_view(ctx.sudo),
                    spec_store_scan_text(),
                    true,
                )
            }),
    {
        let mut r = self.build_command(ctx, store_scan_text(), true);
        r.capture_output();
        proof {
            assert(r@ =~~= (CmdView {
                capture: true,
                ..spec_primary_command(
                    self@,
                    opt_owned_view(ctx.sudo),
                    spec_store_scan_text(),
                    true,
                )
            }));
        }
        r
    }

    /// The store scan succeeded exactly when its command succeeded and
    /// its trimmed output is the scan method's zero return value.
    pub fn microsoft_store_result(&self, query_ok: bool, stdout: &str) -> (r: Result<
        (),
        TopgradeError,
    >)
        ensures
            r is Ok <==> (query_ok && trimmed(stdout@) == "0"@),
            r is Err ==> r == Err::<(), TopgradeError>(TopgradeError::InvalidOutput),
    {
        let _ = self;
        if !query_ok {
            return Err(TopgradeError::InvalidOutput);
        }
        let t = crate::text::trim_str(stdout);
        if crate::text::str_eq(t.as_str(), "0") {
            Ok(())
        } else {
            Err(TopgradeError::InvalidOutput)
        }
    }
}

/// The command string of the platform update, grown from the policy.
pub open spec fn spec_windows_update_text(accept_all: bool, reboot: UpdatesAutoReboot) -> Seq<
    char,
> {
    "Import-Module PSWindowsUpdate; Install-WindowsUpdate -Verbose"@ + (if accept_all {
        " -AcceptAll"@
    } else {
        Seq::empty()
    }) + (match reboot {
        UpdatesAutoReboot::Yes => " -AutoReboot"@,
        UpdatesAutoReboot::No => " -IgnoreReboot"@,
        UpdatesAutoReboot::Ask => Seq::empty(),
    })
}

/// The store scan command string: the device-management scan method,
/// available to unmanaged devices as well, whose return value the
/// caller reads from the captured output.
pub open spec fn spec_store_scan_text() -> Seq<char> {
    "(Get-CimInstance -Namespace \"Root\\cimv2\\mdm\\dmmap\" -ClassName \"MDM_EnterpriseModernAppManagement_AppManagement01\" | Invoke-CimMethod -MethodName UpdateScanMethod).ReturnValue"@
}

/// The scan command string, for executable code.
fn store_scan_text() -> (r: &'static str)
    ensures
        r@ == spec_store_scan_text(),
{
    "(Get-CimInstance -Namespace \"Root\\cimv2\\mdm\\dmmap\" -ClassName \"MDM_EnterpriseModernAppManagement_AppManagement01\" | Invoke-CimMethod -MethodName UpdateScanMethod).ReturnValue"
}

} // verus!
