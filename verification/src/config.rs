//! The policy surface consumed by the dispatch engine: per-step
//! assume-yes, cleanup, tool-selection toggles and free-form extra
//! arguments, together with the execution context threaded through every
//! procedure.

use vstd::prelude::*;

use crate::exec::RunType;

verus! {

/// The named steps an assume-yes answer can be scoped to.
#[derive(Copy, Clone, Debug, PartialEq, Eq, Structural)]
pub enum Step {
    AM,
    ConfigUpdate,
    Flatpak,
    Lure,
    Pacstall,
    Powershell,
    Protonup,
    System,
    Waydroid,
}

/// Whether the platform update tool may reboot the machine by itself.
#[derive(Copy, Clone, Debug, PartialEq, Eq, Structural)]
pub enum UpdatesAutoReboot {
    Yes,
    No,
    Ask,
}

/// The configuration this core consumes; it is supplied from outside and
/// never written here.
pub struct Config {
    /// Assume yes for every step.
    pub yes_all: bool,
    /// Assume yes for these steps only.
    pub yes_steps: Vec<Step>,
    /// Run the policy-gated trailing cleanup phases.
    pub cleanup: bool,
    /// Prefer the boot-container tool on the RedHat family.
    pub bootc: bool,
    /// Prefer the atomic tool on the RedHat family.
    pub rpm_ostree: bool,
    /// Use distro-sync instead of upgrade on the RedHat family.
    pub redhat_distro_sync: bool,
    /// Use dist-upgrade instead of update on Suse.
    pub suse_dup: bool,
    /// Extra arguments handed to the RedHat family package manager.
    pub dnf_arguments: Option<String>,
    /// Extra arguments handed to the apt family front-end.
    pub apt_arguments: Option<String>,
    /// Extra arguments for the Gentoo sync phase.
    pub emerge_sync_flags: Option<String>,
    /// Extra arguments for the Gentoo update phase.
    pub emerge_update_flags: Option<String>,
    /// Extra arguments for the NixOS rebuild.
    pub nix_arguments: Option<String>,
    /// Apply firmware updates rather than only listing them.
    pub firmware_upgrade: bool,
    /// Run the system-wide flatpak phase elevated.
    pub flatpak_use_sudo: bool,
    /// The containers the container-manager step is limited to.
    pub distrobox_containers: Option<Vec<String>>,
    /// Run the container-manager step as root.
    pub distrobox_root: bool,
    /// Verbose flag for the shell module update.
    pub verbose: bool,
    /// Accept every platform update without asking.
    pub accept_all_windows_updates: bool,
    /// Reboot policy for the platform update tool.
    pub windows_updates_auto_reboot: UpdatesAutoReboot,
}

impl Config {
    /// Whether an assume-yes answer is in force for `step`.
    pub open spec fn spec_yes(&self, step: Step) -> bool {
        self.yes_all || self.yes_steps@.contains(step)
    }

    /// Whether an assume-yes answer is in force for `step`.
    pub fn yes(&self, step: Step) -> (r: bool)
        ensures
            r == self.spec_yes(step),
    {
        if self.yes_all {
            return true;
        }
        let mut k: usize = 0;
        while k < self.yes_steps.len()
            invariant
                k <= self.yes_steps.len(),
                forall|m: int| 0 <= m < k ==> self.yes_steps@[m] != step,
            decreases self.yes_steps.len() - k,
        {
            if self.yes_steps[k] == step {
                return true;
            }
            k += 1;
        }
        false
    }
}

/// Everything a procedure needs to know about the run: live or simulated
/// execution, the configured elevation command if any, and the policy.
pub struct ExecutionContext {
    pub run_type: RunType,
    pub sudo: Option<String>,
    pub config: Config,
}

impl ExecutionContext {
    /// The run mode of this execution.
    pub fn run_type(&self) -> (r: RunType)
        ensures
            r == self.run_type,
    {
        self.run_type
    }

    /// The configured elevation command, if one was proven available.
    pub fn sudo(&self) -> (r: &Option<String>)
        ensures
            r == &self.sudo,
    {
        &self.sudo
    }

    /// The policy in force.
    pub fn config(&self) -> (r: &Config)
        ensures
            r == &self.config,
    {
        &self.config
    }
}

} // verus!
