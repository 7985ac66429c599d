use system_generation::error::ErrorKind;
use system_generation::resolve::{find_flake_attr, AttributeResolver, ProbeStep};

fn resolver_for(hostname: &str) -> (AttributeResolver, String) {
    find_flake_attr(hostname)
}

#[test]
fn first_candidate_is_host_specific() {
    let (_, first) = resolver_for("hostA");
    assert_eq!(first, "system.hostA");
}

#[test]
fn successful_host_probe_selects_host_attribute() {
    let (resolver, _) = resolver_for("hostA");
    match resolver.on_probe(true) {
        ProbeStep::Resolved { flake_attr } => assert_eq!(flake_attr, "system.hostA"),
        _ => panic!("a successful host probe must resolve immediately"),
    }
}

#[test]
fn failed_host_probe_falls_back_to_default() {
    let (resolver, _) = resolver_for("hostA");
    let resolver = match resolver.on_probe(false) {
        ProbeStep::Probe { resolver, flake_attr } => {
            assert_eq!(flake_attr, "system.default");
            resolver
        }
        _ => panic!("a failed host probe must go on to the default"),
    };
    match resolver.on_probe(true) {
        ProbeStep::Resolved { flake_attr } => assert_eq!(flake_attr, "system.default"),
        _ => panic!("a successful default probe must resolve"),
    }
}

#[test]
fn both_probes_failing_is_target_not_found() {
    let (resolver, _) = resolver_for("hostA");
    let resolver = match resolver.on_probe(false) {
        ProbeStep::Probe { resolver, .. } => resolver,
        _ => panic!("a failed host probe must go on to the default"),
    };
    match resolver.on_probe(false) {
        ProbeStep::Failed { error } => {
            assert_eq!(error.kind(), ErrorKind::TargetNotFound);
            assert_eq!(error.message(), "No suitable flake attribute found, giving up.");
        }
        _ => panic!("two failed probes must give the resolution up"),
    }
}
