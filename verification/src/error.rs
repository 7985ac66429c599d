use vstd::prelude::*;
use vstd::string::StringExecFns;

verus! {

/// The kind of a failure, without its diagnostic text.
///
/// Spec-level code classifies failures by kind; the corresponding
/// [`Error`] value carries the captured diagnostic text as well.
#[derive(Clone, Copy, Debug, PartialEq, Eq, Structural)]
pub enum ErrorKind {
    /// Neither the host-specific nor the default flake attribute evaluates.
    TargetNotFound,
    /// The local host name could not be determined.
    HostNameLookup,
    /// The external build command exited nonzero.
    BuildFailed,
    /// The build command's structured output could not be decoded.
    MalformedOutput,
    /// The build returned zero or several records instead of exactly one.
    AmbiguousOutput,
    /// The single build record carries no output named "out".
    MissingOutput,
    /// Creating the profile directory or switching the profile failed.
    InstallFailed,
    /// The profile switched, but the GC root could not be registered.
    GcRootFailed,
}

/// A terminal, descriptive failure of the generation pipeline.
///
/// None of these is retried; each is surfaced to the caller together with
/// whatever diagnostic text the failing step produced.
#[derive(Debug)]
pub enum Error {
    TargetNotFound,
    HostNameLookup { message: String },
    BuildFailed { stderr: String },
    MalformedOutput { message: String },
    AmbiguousOutput,
    MissingOutput,
    InstallFailed { message: String },
    GcRootFailed { message: String },
}

impl Error {
    /// The kind of this error.
    pub open spec fn spec_kind(&self) -> ErrorKind {
        match self {
            Error::TargetNotFound => ErrorKind::TargetNotFound,
            Error::HostNameLookup { .. } => ErrorKind::HostNameLookup,
            Error::BuildFailed { .. } => ErrorKind::BuildFailed,
            Error::MalformedOutput { .. } => ErrorKind::MalformedOutput,
            Error::AmbiguousOutput => ErrorKind::AmbiguousOutput,
            Error::MissingOutput => ErrorKind::MissingOutput,
            Error::InstallFailed { .. } => ErrorKind::InstallFailed,
            Error::GcRootFailed { .. } => ErrorKind::GcRootFailed,
        }
    }

    /// The kind of this error, for callers outside the library.
    pub fn kind(&self) -> (k: ErrorKind)
        ensures
            k == self.spec_kind(),
    {
        match self {
            Error::TargetNotFound => ErrorKind::TargetNotFound,
            Error::HostNameLookup { .. } => ErrorKind::HostNameLookup,
            Error::BuildFailed { .. } => ErrorKind::BuildFailed,
            Error::MalformedOutput { .. } => ErrorKind::MalformedOutput,
            Error::AmbiguousOutput => ErrorKind::AmbiguousOutput,
            Error::MissingOutput => ErrorKind::MissingOutput,
            Error::InstallFailed { .. } => ErrorKind::InstallFailed,
            Error::GcRootFailed { .. } => ErrorKind::GcRootFailed,
        }
    }

    /// The message this error renders to, as a sequence of characters.
    pub open spec fn spec_message(&self) -> Seq<char> {
        match self {
            Error::TargetNotFound => "No suitable flake attribute found, giving up."@,
            Error::HostNameLookup { message } => "Failed to look up the local host name: "@
                + message@,
            Error::BuildFailed { .. } => "Nix build failed."@,
            Error::MalformedOutput { message } => "Error reading nix build output: "@ + message@,
            Error::AmbiguousOutput => "Multiple build results were returned, we cannot handle that yet."@,
            Error::MissingOutput => "No output 'out' found in nix build result."@,
            Error::InstallFailed { message } => "Failed to switch the profile to the new generation: "@
                + message@,
            Error::GcRootFailed { message } => "Failed to register the GC root: "@ + message@,
        }
    }

    /// A human-readable description of the failure.
    pub fn message(&self) -> (r: String)
        ensures
            r@ == self.spec_message(),
    {
        match self {
            Error::TargetNotFound => "No suitable flake attribute found, giving up.".to_owned(),
            Error::HostNameLookup { message } => "Failed to look up the local host name: "
                .to_owned()
                .concat(message.as_str()),
            Error::BuildFailed { .. } => "Nix build failed.".to_owned(),
            Error::MalformedOutput { message } => "Error reading nix build output: "
                .to_owned()
                .concat(message.as_str()),
            Error::AmbiguousOutput => "Multiple build results were returned, we cannot handle that yet."
                .to_owned(),
            Error::MissingOutput => "No output 'out' found in nix build result.".to_owned(),
            Error::InstallFailed { message } => "Failed to switch the profile to the new generation: "
                .to_owned()
                .concat(message.as_str()),
            Error::GcRootFailed { message } => "Failed to register the GC root: "
                .to_owned()
                .concat(message.as_str()),
        }
    }
}

} // verus!
