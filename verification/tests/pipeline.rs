use system_generation::build_result::{get_store_path, BuildOutcome, BuildRecord};
use system_generation::error::ErrorKind;
use system_generation::generate::{build, flake_ref};
use system_generation::install::{generate, GcRootOutcome, SwitchOutcome, SwitchStep};
use system_generation::resolve::{find_flake_attr, ProbeStep};
use system_generation::store_path::StorePath;

#[test]
fn flake_ref_joins_uri_and_attribute() {
    assert_eq!(
        flake_ref("github:owner/repo", "system.hostA"),
        "github:owner/repo#system.hostA"
    );
}

#[test]
fn build_probes_the_local_hosts_attribute_first() {
    let (resolver, probe_ref) = build(".").expect("host name lookup failed");
    assert!(probe_ref.starts_with(".#system."));
    match resolver.on_probe(true) {
        ProbeStep::Resolved { flake_attr } => {
            assert_eq!(flake_ref(".", &flake_attr), probe_ref);
        }
        _ => panic!("a successful probe must resolve"),
    }
}

#[test]
fn successful_host_probe_and_single_record_install_end_to_end() {
    // Resolve: the host-specific attribute probes successfully.
    let (resolver, first) = find_flake_attr("hostA");
    assert_eq!(first, "system.hostA");
    let flake_attr = match resolver.on_probe(true) {
        ProbeStep::Resolved { flake_attr } => flake_attr,
        _ => panic!("a successful host probe must resolve"),
    };
    assert_eq!(flake_attr, "system.hostA");

    // Build: one record whose "out" names the new generation.
    let records = vec![BuildRecord {
        drv_path: "/nix/store/abc.drv".to_string(),
        outputs: vec![("out".to_string(), "/nix/store/xyz-system".to_string())],
    }];
    let store_path = get_store_path(BuildOutcome::Success { decoded: Ok(records) }).unwrap();
    assert_eq!(store_path.as_str(), "/nix/store/xyz-system");

    // Install: the profile is set to that store path, then the GC root at
    // the fixed path is pointed at the path the profile resolves to.
    let (installer, request) = generate(&store_path);
    assert_eq!(request.store_path, "/nix/store/xyz-system");
    match installer.on_profile_switch(SwitchOutcome::Switched) {
        SwitchStep::RegisterGcRoot { registration, request } => {
            assert_eq!(request.gcroot_path, "/nix/var/nix/gcroots/system-manager-current");
            let outcome = GcRootOutcome::Linked { canonical: "/nix/store/xyz-system".to_string() };
            assert!(registration.on_gc_root(outcome).is_ok());
        }
        SwitchStep::Aborted { .. } => panic!("a successful switch must not abort"),
    }
}

#[test]
fn two_build_records_stop_the_pipeline_before_any_install() {
    let records = vec![
        BuildRecord {
            drv_path: "/nix/store/abc.drv".to_string(),
            outputs: vec![("out".to_string(), "/nix/store/one".to_string())],
        },
        BuildRecord {
            drv_path: "/nix/store/def.drv".to_string(),
            outputs: vec![("out".to_string(), "/nix/store/two".to_string())],
        },
    ];
    let err = get_store_path(BuildOutcome::Success { decoded: Ok(records) }).unwrap_err();
    assert_eq!(err.kind(), ErrorKind::AmbiguousOutput);
    assert_eq!(
        err.message(),
        "Multiple build results were returned, we cannot handle that yet."
    );
    // With no store path, the installer is never invoked.
}

#[test]
fn store_paths_are_equal_by_their_path_string() {
    let a = StorePath::from("/nix/store/xyz-system".to_string());
    let b = StorePath::from("/nix/store/xyz-system".to_string());
    let c = StorePath::from("/nix/store/other".to_string());
    assert!(a == b);
    assert!(a != c);
    assert_eq!(a.to_path_string(), "/nix/store/xyz-system");
    assert_eq!(a.clone().as_str(), "/nix/store/xyz-system");
}
