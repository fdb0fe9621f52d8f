use twoliter::build_kit;
use twoliter::build_package;
use twoliter::build_variant;
use twoliter::check_arch_support;
use twoliter::decide_invocation;
use twoliter::ensure_package_is_not_variant_sensitive;
use twoliter::package_triggers;
use twoliter::repack_variant;
use twoliter::run;
use twoliter::ArchDecision;
use twoliter::BuildKind;
use twoliter::BuildPlan;
use twoliter::BuildRequest;
use twoliter::BuildRun;
use twoliter::BuildState;
use twoliter::BundleModule;
use twoliter::ExternalFile;
use twoliter::InvocationDecision;
use twoliter::ManifestView;
use twoliter::OrchestratorError;
use twoliter::SupportedArch;

fn request(kind: BuildKind, arch: SupportedArch, cicd_hack: bool) -> BuildRequest {
    BuildRequest {
        kind,
        arch,
        cicd_hack,
        manifest_file: "Cargo.toml".to_string(),
        kit_metadata_path: "build/external-kits/external-kit-metadata.json".to_string(),
        sources_dir: "sources".to_string(),
    }
}

fn manifest() -> ManifestView {
    ManifestView {
        package_name: "mypkg".to_string(),
        manifest_name: "mypkg".to_string(),
        external_files: None,
        source_groups: None,
        supported_arches: None,
        package_features_present: false,
        variant_sensitive_present: false,
    }
}

#[test]
fn variant_sensitive_key_fails_the_package_before_any_fetch() {
    // A package manifest carrying the deprecated variant-sensitive key must
    // fail the whole build, naming the package and the manifest path, and
    // no fetch may be planned.
    let req = request(BuildKind::Package, SupportedArch::X86_64, false);
    let mut m = manifest();
    m.variant_sensitive_present = true;
    m.external_files = Some(vec![ExternalFile {
        url: "https://example.com/pkg-1.0.tar.gz".to_string(),
        checksum: "abc123".to_string(),
        bundle_modules: None,
    }]);
    let e = build_package(&req, &m).unwrap_err();
    assert_eq!(
        e,
        OrchestratorError::VariantSensitive {
            name: "mypkg".to_string(),
            path: "Cargo.toml".to_string(),
        }
    );
    assert!(e.message().contains("mypkg"));
    assert!(e.message().contains("Cargo.toml"));
}

#[test]
fn package_features_key_fails_the_package() {
    let req = request(BuildKind::Package, SupportedArch::X86_64, false);
    let mut m = manifest();
    m.package_features_present = true;
    let e = build_package(&req, &m).unwrap_err();
    assert_eq!(
        e,
        OrchestratorError::PackageFeatures {
            name: "mypkg".to_string(),
            path: "Cargo.toml".to_string(),
        }
    );
    assert_eq!(
        ensure_package_is_not_variant_sensitive(&m, "Cargo.toml").unwrap_err(),
        e
    );
}

#[test]
fn package_plan_collects_fetches_bundles_dirs_and_spec() {
    let req = request(BuildKind::Package, SupportedArch::X86_64, false);
    let mut m = manifest();
    let go_file = ExternalFile {
        url: "https://example.com/mod.tar.gz".to_string(),
        checksum: "beef".to_string(),
        bundle_modules: Some(vec![BundleModule::Go]),
    };
    let plain_file = ExternalFile {
        url: "https://example.com/pkg-1.0.tar.gz".to_string(),
        checksum: "abc123".to_string(),
        bundle_modules: None,
    };
    m.external_files = Some(vec![plain_file.clone(), go_file.clone()]);
    m.source_groups = Some(vec!["group-a".to_string(), "group-b".to_string()]);
    let plan = build_package(&req, &m).unwrap();
    assert_eq!(
        plan.initial_triggers,
        vec![
            "Cargo.toml".to_string(),
            "build/external-kits/external-kit-metadata.json".to_string()
        ]
    );
    assert_eq!(plan.fetches, vec![plain_file, go_file.clone()]);
    assert_eq!(plan.bundles.len(), 1);
    assert_eq!(plan.bundles[0].file, go_file);
    assert_eq!(plan.bundles[0].module, BundleModule::Go);
    assert_eq!(
        plan.crawl_dirs,
        vec!["sources/group-a".to_string(), "sources/group-b".to_string()]
    );
    assert_eq!(plan.spec_file, "mypkg.spec");
}

#[test]
fn package_triggers_are_announced_in_order() {
    let req = request(BuildKind::Package, SupportedArch::X86_64, false);
    let plan = build_package(&req, &manifest()).unwrap();
    let triggers = package_triggers(
        &plan,
        &vec!["sources/group-a/main.c".to_string()],
        &vec!["mypkg-1.0.tar.gz".to_string()],
        &vec!["fix.patch".to_string()],
    );
    assert_eq!(
        triggers,
        vec![
            "Cargo.toml".to_string(),
            "build/external-kits/external-kit-metadata.json".to_string(),
            "sources/group-a/main.c".to_string(),
            "mypkg.spec".to_string(),
            "mypkg-1.0.tar.gz".to_string(),
            "fix.patch".to_string(),
        ]
    );
}

#[test]
fn unsupported_arch_skips_the_variant_build_with_a_warning() {
    // A variant build for aarch64 against a manifest supporting only
    // x86_64: the orchestrator skips the build successfully, emits the
    // warning, and never invokes the sandbox.
    let req = request(BuildKind::Variant, SupportedArch::Aarch64, false);
    let mut m = manifest();
    m.supported_arches = Some(vec![SupportedArch::X86_64]);

    match check_arch_support(&m, req.arch) {
        ArchDecision::SkipBuild { warning } => {
            assert_eq!(
                warning,
                "cargo:warning=aarch64 is not one of the supported architectures ([\"x86_64\"])"
            );
        }
        ArchDecision::Proceed => panic!("the architecture gate must skip this build"),
    }

    let decision = decide_invocation(&req, &m);
    assert_eq!(decision, InvocationDecision::SkipUnsupportedArch);

    let mut run_state = BuildRun::new(req.kind);
    run_state.inputs_resolved();
    run_state.apply_decision(decision);
    assert_eq!(run_state.state, BuildState::Succeeded);
}

#[test]
fn supported_arch_proceeds_to_invocation() {
    let req = request(BuildKind::Variant, SupportedArch::X86_64, false);
    let mut m = manifest();
    m.supported_arches = Some(vec![SupportedArch::X86_64, SupportedArch::Aarch64]);
    assert_eq!(check_arch_support(&m, req.arch), ArchDecision::Proceed);
    assert_eq!(decide_invocation(&req, &m), InvocationDecision::Invoke);
    let plan = build_variant(&req, &m);
    assert_eq!(plan.arch_decision, ArchDecision::Proceed);
    assert_eq!(
        plan.initial_triggers,
        vec![
            "Cargo.toml".to_string(),
            "build/external-kits/external-kit-metadata.json".to_string()
        ]
    );
}

#[test]
fn arch_warning_lists_every_supported_architecture() {
    let mut m = manifest();
    m.supported_arches = Some(vec![SupportedArch::X86_64, SupportedArch::Aarch64]);
    // No list entry matches nothing here: both spellings appear, quoted and
    // comma-separated.
    let req = request(BuildKind::RepackVariant, SupportedArch::Aarch64, false);
    assert_eq!(check_arch_support(&m, SupportedArch::Aarch64), ArchDecision::Proceed);
    m.supported_arches = Some(vec![]);
    match check_arch_support(&m, req.arch) {
        ArchDecision::SkipBuild { warning } => {
            assert_eq!(
                warning,
                "cargo:warning=aarch64 is not one of the supported architectures ([])"
            );
        }
        ArchDecision::Proceed => panic!("an empty supported set admits nothing"),
    }
}

#[test]
fn short_circuit_flag_skips_invocation() {
    let req = request(BuildKind::Kit, SupportedArch::X86_64, true);
    let m = manifest();
    assert_eq!(
        decide_invocation(&req, &m),
        InvocationDecision::SkipShortCircuit
    );
    let mut run_state = BuildRun::new(req.kind);
    run_state.inputs_resolved();
    run_state.apply_decision(InvocationDecision::SkipShortCircuit);
    assert_eq!(run_state.state, BuildState::Succeeded);
}

#[test]
fn exit_status_decides_the_final_state() {
    let mut ok = BuildRun::new(BuildKind::Package);
    ok.inputs_resolved();
    ok.apply_decision(InvocationDecision::Invoke);
    assert_eq!(ok.state, BuildState::Invoked);
    ok.record_exit(0);
    assert_eq!(ok.state, BuildState::Succeeded);

    let mut bad = BuildRun::new(BuildKind::Package);
    bad.inputs_resolved();
    bad.apply_decision(InvocationDecision::Invoke);
    bad.record_exit(2);
    assert_eq!(bad.state, BuildState::Failed);
}

#[test]
fn run_dispatches_by_kind() {
    let m = manifest();
    match run(&request(BuildKind::Kit, SupportedArch::X86_64, false), &m).unwrap() {
        BuildPlan::Kit(p) => assert_eq!(
            p.initial_triggers,
            vec![
                "Cargo.toml".to_string(),
                "build/external-kits/external-kit-metadata.json".to_string()
            ]
        ),
        other => panic!("a kit request must produce a kit plan, got {:?}", other),
    }
    match run(
        &request(BuildKind::RepackVariant, SupportedArch::X86_64, false),
        &m,
    )
    .unwrap()
    {
        BuildPlan::Repack(p) => assert_eq!(p.arch_decision, ArchDecision::Proceed),
        other => panic!("a repack request must produce a repack plan, got {:?}", other),
    }
    let repack = repack_variant(
        &request(BuildKind::RepackVariant, SupportedArch::X86_64, false),
        &m,
    );
    assert_eq!(repack.arch_decision, ArchDecision::Proceed);

    let mut bad = manifest();
    bad.variant_sensitive_present = true;
    assert!(run(&request(BuildKind::Package, SupportedArch::X86_64, false), &bad).is_err());
    // The deprecated keys only gate package builds.
    assert!(run(&request(BuildKind::Kit, SupportedArch::X86_64, false), &bad).is_ok());
}

#[test]
fn kit_plan_announces_initial_triggers() {
    let req = request(BuildKind::Kit, SupportedArch::X86_64, false);
    let plan = build_kit(&req);
    assert_eq!(
        plan.initial_triggers,
        vec![
            "Cargo.toml".to_string(),
            "build/external-kits/external-kit-metadata.json".to_string()
        ]
    );
}

#[test]
fn error_messages_name_package_and_path() {
    let e = OrchestratorError::VariantSensitive {
        name: "mypkg".to_string(),
        path: "pkgs/mypkg/Cargo.toml".to_string(),
    };
    assert_eq!(
        e.message(),
        "the manifest for package mypkg has a variant-sensitive key; \
         packages may not be variant-aware; remove it from pkgs/mypkg/Cargo.toml"
    );
    let e = OrchestratorError::PackageFeatures {
        name: "mypkg".to_string(),
        path: "pkgs/mypkg/Cargo.toml".to_string(),
    };
    assert_eq!(
        e.message(),
        "the manifest for package mypkg has a package-features key; \
         packages may not be variant-aware; remove it from pkgs/mypkg/Cargo.toml"
    );
}
