use vstd::prelude::*;
use vstd::string::StringExecFns;

use crate::build_result::{store_path_of_outcome, BuildOutcome};
use crate::error::{Error, ErrorKind};
use crate::resolve::{find_flake_attr, host_attr_spec, resolved_attr, AttributeResolver};

verus! {

/// Relies on nix::unistd::gethostname: the local host's name as the
/// operating system reports it, decoded lossily; the error case carries
/// the failing errno's description. Nothing is assumed of the value.
#[verifier::external_body]
fn hostname_string() -> (r: Result<String, String>) {
    match nix::unistd::gethostname() {
        Ok(name) => Ok(name.to_string_lossy().into_owned()),
        Err(errno) => Err(String::from(errno.desc())),
    }
}

/// The installable reference the external tool is pointed at: `<uri>#<attr>`.
pub open spec fn flake_ref_spec(flake_uri: Seq<char>, flake_attr: Seq<char>) -> Seq<char> {
    flake_uri + "#"@ + flake_attr
}

/// Joins a build-source URI and an attribute into the `<uri>#<attr>`
/// reference that the external tool's eval and build commands take.
pub fn flake_ref(flake_uri: &str, flake_attr: &str) -> (r: String)
    ensures
        r@ == flake_ref_spec(flake_uri@, flake_attr@),
{
    flake_uri.to_owned().concat("#").concat(flake_attr)
}

/// What a whole build run comes to, given how the two probes and the
/// build command would turn out. When neither candidate attribute
/// resolves, the run fails as target-not-found without consulting any
/// build outcome at all.
pub open spec fn build_spec(
    host_attr: Seq<char>,
    host_ok: bool,
    default_ok: bool,
    outcome: BuildOutcome,
) -> Result<Seq<char>, ErrorKind> {
    match resolved_attr(host_attr, host_ok, default_ok) {
        None => Err(ErrorKind::TargetNotFound),
        Some(_) => store_path_of_outcome(outcome),
    }
}

/// When both probes fail, the run fails as target-not-found whatever any
/// build would have returned: no build is performed, and the result does
/// not depend on one.
pub proof fn lemma_failed_resolution_builds_nothing(
    host_attr: Seq<char>,
    outcome: BuildOutcome,
)
    ensures
        build_spec(host_attr, false, false, outcome) == Err::<Seq<char>, ErrorKind>(
            ErrorKind::TargetNotFound,
        ),
{
}

/// Starts building a new generation from the given build source: looks
/// up the local host's name and opens the attribute resolution, handing
/// back the `<uri>#<attr>` reference of the host-specific candidate as
/// the first one to probe.
///
/// The driver evaluates the returned reference, feeds the outcome to
/// [`AttributeResolver::on_probe`], runs the build command on the
/// resolved attribute, and hands the build's outcome to
/// [`crate::build_result::get_store_path`]. Only the host-name lookup can
/// fail here; its error carries the operating system's description.
pub fn build(flake_uri: &str) -> (r: Result<(AttributeResolver, String), Error>)
    ensures
        r matches Ok((resolver, probe_ref)) ==> !resolver.trying_default() && probe_ref@
            == flake_ref_spec(flake_uri@, resolver.host_attr()) && (exists|hostname: Seq<char>|
            resolver.host_attr() == #[trigger] host_attr_spec(hostname)),
        r matches Err(e) ==> e matches Error::HostNameLookup { .. },
{
    match hostname_string() {
        Err(message) => Err(Error::HostNameLookup { message }),
        Ok(hostname) => {
            let (resolver, first_attr) = find_flake_attr(hostname.as_str());
            let probe_ref = flake_ref(flake_uri, first_attr.as_str());
            proof {
                assert(resolver.host_attr() == host_attr_spec(hostname@));
            }
            Ok((resolver, probe_ref))
        },
    }
}

} // verus!
