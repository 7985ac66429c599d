use vstd::prelude::*;
use vstd::string::StringExecFns;

use crate::error::Error;

verus! {

/// The prefix every build-target attribute starts with: candidates are
/// `system.<hostname>` and `system.default`.
pub open spec fn flake_attr_prefix() -> Seq<char> {
    "system."@
}

/// The host-specific candidate attribute for a host.
pub open spec fn host_attr_spec(hostname: Seq<char>) -> Seq<char> {
    flake_attr_prefix() + hostname
}

/// The generic fallback attribute, probed when the host-specific
/// candidate is absent.
pub open spec fn default_attr_spec() -> Seq<char> {
    flake_attr_prefix() + "default"@
}

/// Which attribute a full resolution run selects, given how the two
/// probes would turn out: the host-specific candidate if it probes
/// successfully, otherwise the default if that does, otherwise none.
pub open spec fn resolved_attr(
    host_attr: Seq<char>,
    host_ok: bool,
    default_ok: bool,
) -> Option<Seq<char>> {
    if host_ok {
        Some(host_attr)
    } else if default_ok {
        Some(default_attr_spec())
    } else {
        None
    }
}

/// Chooses which named build target to request, favoring the
/// host-specific attribute and falling back to the generic default.
///
/// The resolver itself performs no probe: it hands out one candidate at a
/// time, and [`AttributeResolver::on_probe`] is fed whether the external
/// evaluation of that candidate exited successfully.
pub struct AttributeResolver {
    host_attr: String,
    trying_default: bool,
}

impl AttributeResolver {
    /// The host-specific candidate this resolver started from.
    pub closed spec fn host_attr(&self) -> Seq<char> {
        self.host_attr@
    }

    /// Whether the host-specific probe has already failed, so that the
    /// pending candidate is the default.
    pub closed spec fn trying_default(&self) -> bool {
        self.trying_default
    }

    /// Advances the resolution by one probe outcome: `success` says
    /// whether the external evaluation of the pending candidate exited
    /// with code zero.
    ///
    /// A successful probe resolves to the pending candidate at once; in
    /// particular a successful host-specific probe never goes on to the
    /// default. A failed host-specific probe hands out the default as the
    /// next candidate, and a failed default probe gives the resolution up
    /// as target-not-found.
    pub fn on_probe(self, success: bool) -> (r: ProbeStep)
        ensures
            !self.trying_default() && success ==> (r matches ProbeStep::Resolved { flake_attr }
                && flake_attr@ == self.host_attr()
                && Some(flake_attr@) == resolved_attr(self.host_attr(), true, false)
                && Some(flake_attr@) == resolved_attr(self.host_attr(), true, true)),
            !self.trying_default() && !success ==> (r matches ProbeStep::Probe {
                resolver,
                flake_attr,
            } && resolver.trying_default() && resolver.host_attr() == self.host_attr()
                && flake_attr@ == default_attr_spec()),
            self.trying_default() && success ==> (r matches ProbeStep::Resolved { flake_attr }
                && flake_attr@ == default_attr_spec()
                && Some(flake_attr@) == resolved_attr(self.host_attr(), false, true)),
            self.trying_default() && !success ==> (r matches ProbeStep::Failed { error }
                && error is TargetNotFound
                && resolved_attr(self.host_attr(), false, false) is None),
    {
        if success {
            if self.trying_default {
                ProbeStep::Resolved { flake_attr: "system.".to_owned().concat("default") }
            } else {
                ProbeStep::Resolved { flake_attr: self.host_attr }
            }
        } else {
            if self.trying_default {
                ProbeStep::Failed { error: Error::TargetNotFound }
            } else {
                let next = AttributeResolver { host_attr: self.host_attr, trying_default: true };
                ProbeStep::Probe {
                    resolver: next,
                    flake_attr: "system.".to_owned().concat("default"),
                }
            }
        }
    }
}

/// What one probe outcome leads to: a selected attribute, a further
/// candidate to probe, or giving up.
pub enum ProbeStep {
    /// The pending candidate evaluates; it is the selected target.
    Resolved { flake_attr: String },
    /// The pending candidate is absent; probe `flake_attr` next.
    Probe { resolver: AttributeResolver, flake_attr: String },
    /// Neither candidate evaluates; no build is requested.
    Failed { error: Error },
}

/// Starts a resolution for the given host: the first candidate to probe
/// is the host-specific attribute.
pub fn find_flake_attr(hostname: &str) -> (r: (AttributeResolver, String))
    ensures
        r.0.host_attr() == host_attr_spec(hostname@),
        !r.0.trying_default(),
        r.1@ == r.0.host_attr(),
{
    let host_attr: String = "system.".to_owned().concat(hostname);
    let first = host_attr.clone();
    (AttributeResolver { host_attr, trying_default: false }, first)
}

/// A host-specific attribute that probes successfully is selected, and
/// the default fallback is never consulted: the resolution does not
/// depend on how the default would probe.
pub proof fn lemma_host_probe_success_selects_host(
    host_attr: Seq<char>,
    default_ok: bool,
)
    ensures
        resolved_attr(host_attr, true, default_ok) == Some(host_attr),
{
}

/// When the host-specific probe fails and the default probes
/// successfully, the default attribute is selected.
pub proof fn lemma_fallback_selects_default(host_attr: Seq<char>)
    ensures
        resolved_attr(host_attr, false, true) == Some(default_attr_spec()),
{
}

/// When both probes fail, no attribute is selected at all, so nothing is
/// ever handed to the builder.
pub proof fn lemma_both_probes_failing_selects_nothing(host_attr: Seq<char>)
    ensures
        resolved_attr(host_attr, false, false) is None,
{
}

} // verus!
