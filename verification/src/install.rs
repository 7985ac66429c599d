use vstd::prelude::*;
use vstd::string::StringExecFns;

use crate::error::{Error, ErrorKind};
use crate::store_path::StorePath;

verus! {

/// The fixed directory that holds the generation profiles.
pub open spec fn spec_profile_dir() -> Seq<char> {
    "/nix/var/nix/profiles/system-manager-profiles"@
}

/// The fixed name of the generation profile inside the profile directory.
pub open spec fn spec_profile_name() -> Seq<char> {
    "system-manager"@
}

/// The full path of the generation profile: `<dir>/<name>`.
pub open spec fn spec_profile_path() -> Seq<char> {
    spec_profile_dir() + "/"@ + spec_profile_name()
}

/// The fixed well-known path of the persistent GC root.
pub open spec fn spec_gcroot_path() -> Seq<char> {
    "/nix/var/nix/gcroots/system-manager-current"@
}

/// The first step of an installation: ensure `profile_dir` exists
/// (creating it recursively if absent), then atomically repoint the
/// profile at `profile_path` to `store_path` with the profile manager's
/// "set" command.
#[derive(Debug)]
pub struct ProfileSwitchRequest {
    pub profile_dir: String,
    pub profile_path: String,
    pub store_path: String,
}

/// How the profile-switch step went: `Failed` covers a directory that
/// could not be created, a profile-manager command that could not be run,
/// and one that exited nonzero.
#[derive(Debug)]
pub enum SwitchOutcome {
    Switched,
    Failed { message: String },
}

/// The second step of an installation: resolve the profile pointer at
/// `profile_path` to its canonical store path, then create or update the
/// persistent link at `gcroot_path` so it points there.
#[derive(Debug)]
pub struct GcRootRequest {
    pub gcroot_path: String,
    pub profile_path: String,
}

/// How the GC-root step went: on success, `canonical` is the store path
/// the profile pointer resolved to, which the new GC root points at.
#[derive(Debug)]
pub enum GcRootOutcome {
    Linked { canonical: String },
    Failed { message: String },
}

/// What an installation run comes to, given how its two steps would turn
/// out. The steps are strictly ordered: when the profile switch fails,
/// the run aborts and the GC-root step does not happen at all.
pub open spec fn install_spec(switch_ok: bool, gcroot_ok: bool) -> Result<(), ErrorKind> {
    if !switch_ok {
        Err(ErrorKind::InstallFailed)
    } else if !gcroot_ok {
        Err(ErrorKind::GcRootFailed)
    } else {
        Ok(())
    }
}

/// Publishes a store path as the active generation, in two strictly
/// ordered steps: switch the profile, then register the GC root.
///
/// The installer performs no filesystem work itself: it hands out one
/// request at a time and is fed each step's outcome. The GC-root request
/// only ever comes out of [`GenerationInstaller::on_profile_switch`] fed
/// a successful switch, so a failed switch leaves the GC root untouched.
pub struct GenerationInstaller {
    store_path: String,
}

/// Awaits the outcome of the GC-root step; only a successful profile
/// switch produces a value of this type.
pub struct GcRootRegistration {
    store_path: String,
}

/// What the profile-switch outcome leads to: the GC-root step, or an
/// aborted installation.
pub enum SwitchStep {
    /// The profile now points at the new generation; register the GC root.
    RegisterGcRoot { registration: GcRootRegistration, request: GcRootRequest },
    /// The switch failed; the previous generation stays active and the GC
    /// root is not touched.
    Aborted { error: Error },
}

/// Starts installing `store_path` as the active generation: the first
/// step is to switch the profile to it.
pub fn generate(store_path: &StorePath) -> (r: (GenerationInstaller, ProfileSwitchRequest))
    ensures
        r.0.installing() == store_path@,
        r.1.profile_dir@ == spec_profile_dir(),
        r.1.profile_path@ == spec_profile_path(),
        r.1.store_path@ == store_path@,
{
    let profile_dir: String = "/nix/var/nix/profiles/system-manager-profiles".to_owned();
    let profile_path: String = profile_dir.clone().concat("/").concat("system-manager");
    let request = ProfileSwitchRequest {
        profile_dir,
        profile_path,
        store_path: store_path.to_path_string(),
    };
    (GenerationInstaller { store_path: store_path.to_path_string() }, request)
}

impl GenerationInstaller {
    /// The store path this installation is publishing.
    pub closed spec fn installing(&self) -> Seq<char> {
        self.store_path@
    }

    /// Advances the installation by the profile-switch outcome.
    ///
    /// Only a successful switch yields the GC-root request; a failed
    /// switch aborts with an install-failure carrying the step's
    /// diagnostic text, and no GC-root request is ever issued for this
    /// installation.
    pub fn on_profile_switch(self, outcome: SwitchOutcome) -> (r: SwitchStep)
        ensures
            outcome matches SwitchOutcome::Switched ==> (r matches SwitchStep::RegisterGcRoot {
                registration,
                request,
            } && registration.installing() == self.installing()
                && request.gcroot_path@ == spec_gcroot_path()
                && request.profile_path@ == spec_profile_path()),
            outcome matches SwitchOutcome::Failed { message } ==> (r matches SwitchStep::Aborted {
                error,
            } && (error matches Error::InstallFailed { message: m } && m@ == message@)
                && install_spec(false, true) == Err::<(), ErrorKind>(ErrorKind::InstallFailed)
                && install_spec(false, false) == Err::<(), ErrorKind>(ErrorKind::InstallFailed)),
    {
        match outcome {
            SwitchOutcome::Switched => {
                let gcroot_path: String = "/nix/var/nix/gcroots/system-manager-current".to_owned();
                let profile_path: String = "/nix/var/nix/profiles/system-manager-profiles"
                    .to_owned()
                    .concat("/")
                    .concat("system-manager");
                SwitchStep::RegisterGcRoot {
                    registration: GcRootRegistration { store_path: self.store_path },
                    request: GcRootRequest { gcroot_path, profile_path },
                }
            },
            SwitchOutcome::Failed { message } => SwitchStep::Aborted {
                error: Error::InstallFailed { message },
            },
        }
    }
}

impl GcRootRegistration {
    /// The store path this installation is publishing.
    pub closed spec fn installing(&self) -> Seq<char> {
        self.store_path@
    }

    /// Finishes the installation with the GC-root outcome.
    ///
    /// Once this step is reached the new generation is already active; a
    /// failure here means it is active but unprotected from collection,
    /// which is reported as a GC-root failure and not rolled back.
    pub fn on_gc_root(self, outcome: GcRootOutcome) -> (r: Result<(), Error>)
        ensures
            outcome matches GcRootOutcome::Linked { .. } ==> r is Ok && install_spec(true, true)
                == Ok::<(), ErrorKind>(()),
            outcome matches GcRootOutcome::Failed { message } ==> (r matches Err(e)
                && (e matches Error::GcRootFailed { message: m } && m@ == message@)
                && install_spec(true, false) == Err::<(), ErrorKind>(ErrorKind::GcRootFailed)),
    {
        match outcome {
            GcRootOutcome::Linked { .. } => Ok(()),
            GcRootOutcome::Failed { message } => Err(Error::GcRootFailed { message }),
        }
    }
}

/// When the profile-switch step fails, the installation fails as an
/// install-failure no matter how the GC-root step would have gone: the
/// result does not depend on it, and the GC root is never touched.
pub proof fn lemma_failed_switch_touches_no_gcroot(gcroot_ok: bool)
    ensures
        install_spec(false, gcroot_ok) == Err::<(), ErrorKind>(ErrorKind::InstallFailed),
{
}

} // verus!
