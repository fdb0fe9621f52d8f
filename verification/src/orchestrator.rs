//! The build-invocation state machine.
//!
//! A build request (package, kit, variant, or repack-variant) plus its
//! declared inputs becomes one sandboxed build invocation. The orchestrator
//! plans which files must be fetched, which bundling steps follow, and which
//! file paths must be announced as rebuild triggers — each exactly once,
//! before the sandbox is invoked. For variant and repack builds an
//! unsupported target architecture is not an error: the build is skipped
//! with a warning and counts as a success, so that architecture-gated
//! builds do not fail multi-architecture pipelines.
use vstd::prelude::*;

use crate::cache::BundleModule;
use crate::cache::ExternalFile;
use crate::cache::ExternalFileV;
use crate::text::append_all;
use crate::text::join_path;
use crate::text::push_deep;
use crate::text::spec_joined;

verus! {

/// An architecture a variant can declare support for.
#[derive(Debug, Clone, Copy, PartialEq, Eq, Structural, Hash)]
pub enum SupportedArch {
    X86_64,
    Aarch64,
}

/// The text of an architecture name.
pub open spec fn spec_arch_text(a: SupportedArch) -> Seq<char> {
    match a {
        SupportedArch::X86_64 => "x86_64"@,
        SupportedArch::Aarch64 => "aarch64"@,
    }
}

impl SupportedArch {
    /// Renders the architecture name.
    pub fn to_text(&self) -> (r: String)
        ensures
            r@ == spec_arch_text(*self),
    {
        match self {
            SupportedArch::X86_64 => "x86_64".to_owned(),
            SupportedArch::Aarch64 => "aarch64".to_owned(),
        }
    }
}

/// The four kinds of build request.
#[derive(Debug, Clone, Copy, PartialEq, Eq, Structural)]
pub enum BuildKind {
    Package,
    Kit,
    Variant,
    RepackVariant,
}

/// One build request: its kind, target architecture, the short-circuit flag
/// that skips invocation after inputs are resolved, and the paths the
/// request announces as its first rebuild triggers.
#[derive(Debug)]
pub struct BuildRequest {
    pub kind: BuildKind,
    pub arch: SupportedArch,
    /// When set, the request stops successfully once inputs are resolved,
    /// without invoking the sandbox (orchestration-only dry runs).
    pub cicd_hack: bool,
    /// The path of the manifest file itself.
    pub manifest_file: String,
    /// The path of the external-dependency metadata file.
    pub kit_metadata_path: String,
    /// The directory declared source groups are resolved under.
    pub sources_dir: String,
}

/// What the orchestrator reads from the project's manifest (an external
/// collaborator parses it and hands these plain values over).
#[derive(Debug)]
pub struct ManifestView {
    /// The name used for the package's spec file.
    pub package_name: String,
    /// The name the manifest declares, used in error messages.
    pub manifest_name: String,
    pub external_files: Option<Vec<ExternalFile>>,
    pub source_groups: Option<Vec<String>>,
    pub supported_arches: Option<Vec<SupportedArch>>,
    /// Whether the deprecated per-package `package-features` key is present.
    pub package_features_present: bool,
    /// Whether the deprecated per-package `variant-sensitive` key is present.
    pub variant_sensitive_present: bool,
}

/// Input errors: a package manifest carries one of the two deprecated
/// variant-sensitivity keys. Packages must not be aware of which variant
/// builds them, so the whole build fails, naming the package and its
/// manifest file.
#[derive(Debug, PartialEq, Eq)]
pub enum OrchestratorError {
    PackageFeatures { name: String, path: String },
    VariantSensitive { name: String, path: String },
}

impl OrchestratorError {
    /// The single human-readable line describing the failure.
    pub fn message(&self) -> (r: String)
        ensures
            self matches OrchestratorError::PackageFeatures { name, path } ==> r@
                == "the manifest for package "@ + name@
                + " has a package-features key; packages may not be variant-aware; remove it from "@
                + path@,
            self matches OrchestratorError::VariantSensitive { name, path } ==> r@
                == "the manifest for package "@ + name@
                + " has a variant-sensitive key; packages may not be variant-aware; remove it from "@
                + path@,
    {
        match self {
            OrchestratorError::PackageFeatures { name, path } => {
                let mut s: String = "the manifest for package ".to_owned();
                s.append(name.as_str());
                s.append(
                    " has a package-features key; packages may not be variant-aware; remove it from ",
                );
                s.append(path.as_str());
                s
            },
            OrchestratorError::VariantSensitive { name, path } => {
                let mut s: String = "the manifest for package ".to_owned();
                s.append(name.as_str());
                s.append(
                    " has a variant-sensitive key; packages may not be variant-aware; remove it from ",
                );
                s.append(path.as_str());
                s
            },
        }
    }
}

/// Whether a manifest is free of the two deprecated variant-sensitivity keys.
pub open spec fn spec_not_variant_sensitive(m: ManifestView) -> bool {
    !m.package_features_present && !m.variant_sensitive_present
}

/// Ensures that the package's manifest does not carry a deprecated
/// variant-sensitivity key. Fails, naming the package and manifest path,
/// when one is present; the `package-features` key is reported first.
pub fn ensure_package_is_not_variant_sensitive(manifest: &ManifestView, manifest_path: &str) -> (r:
    Result<(), OrchestratorError>)
    ensures
        r is Ok <==> spec_not_variant_sensitive(*manifest),
        r matches Err(e) ==> {
            &&& manifest.package_features_present ==> (e matches
                OrchestratorError::PackageFeatures { name, path } && name@
                == manifest.manifest_name@ && path@ == manifest_path@)
            &&& !manifest.package_features_present ==> (e matches
                OrchestratorError::VariantSensitive { name, path } && name@
                == manifest.manifest_name@ && path@ == manifest_path@)
        },
{
    if manifest.package_features_present {
        return Err(
            OrchestratorError::PackageFeatures {
                name: manifest.manifest_name.clone(),
                path: manifest_path.to_owned(),
            },
        );
    }
    if manifest.variant_sensitive_present {
        return Err(
            OrchestratorError::VariantSensitive {
                name: manifest.manifest_name.clone(),
                path: manifest_path.to_owned(),
            },
        );
    }
    Ok(())
}

/// Whether a declared supported-architecture list rules the target
/// architecture out: the manifest declares a list and the architecture is
/// not in it. A manifest that declares no list supports every architecture.
pub open spec fn spec_arch_unsupported(m: ManifestView, arch: SupportedArch) -> bool {
    m.supported_arches matches Some(l) && !l@.contains(arch)
}

/// The quoted-and-comma-separated rendering of an architecture list, as it
/// appears in the unsupported-architecture warning.
pub open spec fn spec_arch_list(s: Seq<SupportedArch>) -> Seq<char>
    decreases s.len(),
{
    if s.len() == 0 {
        Seq::<char>::empty()
    } else if s.len() == 1 {
        seq!['"'] + spec_arch_text(s[0]) + seq!['"']
    } else {
        spec_arch_list(s.drop_last()) + ", "@ + seq!['"'] + spec_arch_text(s.last()) + seq!['"']
    }
}

/// The warning diagnostic emitted when a variant or repack build is skipped
/// because the target architecture is not supported.
pub open spec fn spec_arch_warning(arch: SupportedArch, supported: Seq<SupportedArch>) -> Seq<
    char,
> {
    "cargo:warning="@ + spec_arch_text(arch) + " is not one of the supported architectures (["@
        + spec_arch_list(supported) + "])"@
}

fn arch_list_text(s: &Vec<SupportedArch>) -> (r: String)
    ensures
        r@ == spec_arch_list(s@),
{
    let mut r = String::new();
    let len = s.len();
    for i in 0..len
        invariant
            len == s@.len(),
            r@ == spec_arch_list(s@.take(i as int)),
    {
        if i > 0 {
            r.append(", ");
        }
        r.append("\"");
        r.append(s[i].to_text().as_str());
        r.append("\"");
        proof {
            reveal_strlit("\"");
            assert(s@.take(i + 1).drop_last() =~= s@.take(i as int));
            assert(s@.take(i + 1).last() == s@[i as int]);
            assert(r@ =~= spec_arch_list(s@.take(i + 1)));
        }
    }
    proof {
        assert(s@.take(s@.len() as int) =~= s@);
    }
    r
}

fn arch_contained(list: &Vec<SupportedArch>, arch: SupportedArch) -> (r: bool)
    ensures
        r == list@.contains(arch),
{
    for i in 0..list.len()
        invariant
            forall|j: int| 0 <= j < i ==> list@[j] != arch,
    {
        if list[i] == arch {
            return true;
        }
    }
    false
}

/// What the architecture gate decided: proceed with the build, or skip the
/// whole build successfully while emitting the given warning diagnostic.
#[derive(Debug, PartialEq, Eq)]
pub enum ArchDecision {
    Proceed,
    SkipBuild { warning: String },
}

/// Checks whether the target architecture is supported by the manifest.
/// When it is not, the build is skipped — by design a success, not an
/// error — and the returned warning names the architecture and the
/// supported set.
pub fn check_arch_support(manifest: &ManifestView, arch: SupportedArch) -> (r: ArchDecision)
    ensures
        r is Proceed <==> !spec_arch_unsupported(*manifest, arch),
        r matches ArchDecision::SkipBuild { warning } ==> warning@ == spec_arch_warning(
            arch,
            manifest.supported_arches->Some_0@,
        ),
{
    match &manifest.supported_arches {
        Some(list) => {
            if arch_contained(list, arch) {
                ArchDecision::Proceed
            } else {
                let mut w: String = "cargo:warning=".to_owned();
                w.append(arch.to_text().as_str());
                w.append(" is not one of the supported architectures ([");
                w.append(arch_list_text(list).as_str());
                w.append("])");
                proof {
                    assert(w@ =~= spec_arch_warning(arch, manifest.supported_arches->Some_0@));
                }
                ArchDecision::SkipBuild { warning: w }
            }
        },
        None => ArchDecision::Proceed,
    }
}

/// One bundling step: an external file that requests post-processing by the
/// named bundler once its checksum is verified.
#[derive(Debug)]
pub struct BundleRequest {
    pub file: ExternalFile,
    pub module: BundleModule,
}

impl DeepView for BundleRequest {
    type V = (ExternalFileV, BundleModule);

    open spec fn deep_view(&self) -> (ExternalFileV, BundleModule) {
        (self.file@, self.module)
    }
}

/// The bundling steps one external file requests.
pub open spec fn spec_file_bundles(f: ExternalFileV) -> Seq<(ExternalFileV, BundleModule)> {
    match f.bundle_modules {
        Some(ms) => ms.map_values(|m: BundleModule| (f, m)),
        None => Seq::<(ExternalFileV, BundleModule)>::empty(),
    }
}

/// The bundling steps a list of external files requests, in declaration
/// order.
pub open spec fn spec_bundles(fs: Seq<ExternalFileV>) -> Seq<(ExternalFileV, BundleModule)>
    decreases fs.len(),
{
    if fs.len() == 0 {
        Seq::<(ExternalFileV, BundleModule)>::empty()
    } else {
        spec_bundles(fs.drop_last()) + spec_file_bundles(fs.last())
    }
}

/// Bundling steps only use verified files: every planned bundling step names
/// one of the descriptors the fetch materializes and verifies first.
pub proof fn lemma_bundles_use_fetched_files(fs: Seq<ExternalFileV>)
    ensures
        forall|k: int|
            0 <= k < spec_bundles(fs).len() ==> fs.contains((#[trigger] spec_bundles(fs)[k]).0),
    decreases fs.len(),
{
    if fs.len() > 0 {
        lemma_bundles_use_fetched_files(fs.drop_last());
        let a = spec_bundles(fs.drop_last());
        let b = spec_file_bundles(fs.last());
        assert forall|k: int| 0 <= k < spec_bundles(fs).len() implies fs.contains(
            (#[trigger] spec_bundles(fs)[k]).0,
        ) by {
            if k < a.len() {
                assert(spec_bundles(fs)[k] == a[k]);
                assert(fs.drop_last().contains(a[k].0));
                let i = choose|i: int|
                    0 <= i < fs.drop_last().len() && fs.drop_last()[i] == a[k].0;
                assert(fs[i] == a[k].0);
            } else {
                assert(spec_bundles(fs)[k] == b[k - a.len()]);
                assert(b[k - a.len()].0 == fs.last());
                assert(fs[fs.len() - 1] == fs.last());
            }
        }
    }
}

fn collect_bundles(files: &Vec<ExternalFile>) -> (r: Vec<BundleRequest>)
    ensures
        r.deep_view() == spec_bundles(files.deep_view()),
{
    let mut r: Vec<BundleRequest> = Vec::new();
    let len = files.len();
    for i in 0..len
        invariant
            len == files@.len(),
            r.deep_view() == spec_bundles(files.deep_view().take(i as int)),
    {
        match &files[i].bundle_modules {
            Some(ms) => {
                let m_len = ms.len();
                for k in 0..m_len
                    invariant
                        len == files@.len(),
                        i < len,
                        m_len == ms@.len(),
                        files@[i as int].bundle_modules matches Some(b) && b@ == ms@,
                        r.deep_view() == spec_bundles(files.deep_view().take(i as int))
                            + spec_file_bundles(files.deep_view()[i as int]).take(k as int),
                {
                    push_deep(&mut r, BundleRequest { file: files[i].clone(), module: ms[k] });
                    proof {
                        assert(files.deep_view()[i as int] == files@[i as int].deep_view());
                        assert(spec_file_bundles(files.deep_view()[i as int])[k as int] == (
                        files.deep_view()[i as int],
                        ms@[k as int],
                        ));
                        assert(r.deep_view() =~= spec_bundles(files.deep_view().take(i as int))
                            + spec_file_bundles(files.deep_view()[i as int]).take(k + 1));
                    }
                }
                proof {
                    assert(spec_file_bundles(files.deep_view()[i as int]).take(m_len as int)
                        =~= spec_file_bundles(files.deep_view()[i as int]));
                }
            },
            None => {
                proof {
                    assert(spec_file_bundles(files.deep_view()[i as int]) =~= Seq::<
                        (ExternalFileV, BundleModule),
                    >::empty());
                }
            },
        }
        proof {
            assert(files.deep_view().take(i + 1).drop_last() =~= files.deep_view().take(i as int));
            assert(files.deep_view().take(i + 1).last() == files.deep_view()[i as int]);
            assert(r.deep_view() =~= spec_bundles(files.deep_view().take(i + 1)));
        }
    }
    proof {
        assert(files.deep_view().take(files.deep_view().len() as int) =~= files.deep_view());
    }
    r
}

fn clone_files(files: &Vec<ExternalFile>) -> (r: Vec<ExternalFile>)
    ensures
        r.deep_view() == files.deep_view(),
{
    let mut r: Vec<ExternalFile> = Vec::new();
    let len = files.len();
    for i in 0..len
        invariant
            len == files@.len(),
            r.deep_view() == files.deep_view().take(i as int),
    {
        push_deep(&mut r, files[i].clone());
        proof {
            assert(files.deep_view().take(i + 1)[i as int] == files@[i as int].deep_view());
            assert(r.deep_view() =~= files.deep_view().take(i + 1));
        }
    }
    proof {
        assert(files.deep_view().take(files.deep_view().len() as int) =~= files.deep_view());
    }
    r
}

/// The crawl directories of a package: each declared source group joined
/// under the request's sources directory.
pub open spec fn spec_crawl_dirs(sources_dir: Seq<char>, groups: Seq<Seq<char>>) -> Seq<Seq<char>> {
    groups.map_values(|g: Seq<char>| spec_joined(sources_dir, '/', g))
}

fn crawl_dirs(sources_dir: &str, groups: &Vec<String>) -> (r: Vec<String>)
    ensures
        r.deep_view() == spec_crawl_dirs(sources_dir@, groups.deep_view()),
{
    let mut r: Vec<String> = Vec::new();
    let len = groups.len();
    for i in 0..len
        invariant
            len == groups@.len(),
            r.deep_view() == spec_crawl_dirs(sources_dir@, groups.deep_view().take(i as int)),
    {
        push_deep(&mut r, join_path(sources_dir, groups[i].as_str()));
        proof {
            assert(groups.deep_view()[i as int] == groups@[i as int].deep_view());
            assert(r.deep_view() =~= spec_crawl_dirs(
                sources_dir@,
                groups.deep_view().take(i + 1),
            ));
        }
    }
    proof {
        assert(groups.deep_view().take(groups.deep_view().len() as int) =~= groups.deep_view());
    }
    r
}

/// The first rebuild triggers of a request: the manifest file itself and the
/// external-dependency metadata file.
pub open spec fn spec_initial_triggers(req: BuildRequest) -> Seq<Seq<char>> {
    seq![req.manifest_file@, req.kit_metadata_path@]
}

fn initial_triggers(req: &BuildRequest) -> (r: Vec<String>)
    ensures
        r.deep_view() == spec_initial_triggers(*req),
{
    let mut r: Vec<String> = Vec::new();
    push_deep(&mut r, req.manifest_file.clone());
    push_deep(&mut r, req.kit_metadata_path.clone());
    proof {
        assert(r.deep_view() =~= spec_initial_triggers(*req));
    }
    r
}

/// The name of the spec file contributed by a package: its package name
/// followed by `.spec`.
pub open spec fn spec_spec_file(package_name: Seq<char>) -> Seq<char> {
    package_name + ".spec"@
}

/// Everything a package build must do between reading the manifest and
/// invoking the sandbox: announce the initial triggers, fetch the external
/// files, run the bundling steps, crawl the source directories, and read
/// the spec file.
#[derive(Debug)]
pub struct PackagePlan {
    pub initial_triggers: Vec<String>,
    pub fetches: Vec<ExternalFile>,
    pub bundles: Vec<BundleRequest>,
    pub crawl_dirs: Vec<String>,
    pub spec_file: String,
}

/// What a correct package plan holds for a request and manifest.
pub open spec fn spec_package_plan(req: BuildRequest, m: ManifestView, p: PackagePlan) -> bool {
    &&& p.initial_triggers.deep_view() == spec_initial_triggers(req)
    &&& p.fetches.deep_view() == (match m.external_files {
        Some(fs) => fs.deep_view(),
        None => Seq::<ExternalFileV>::empty(),
    })
    &&& p.bundles.deep_view() == spec_bundles(p.fetches.deep_view())
    &&& p.crawl_dirs.deep_view() == (match m.source_groups {
        Some(gs) => spec_crawl_dirs(req.sources_dir@, gs.deep_view()),
        None => Seq::<Seq<char>>::empty(),
    })
    &&& p.spec_file@ == spec_spec_file(m.package_name@)
}

/// Plans a package build. The deprecated variant-sensitivity keys fail the
/// build here, before any fetch is planned, naming the package and its
/// manifest file.
pub fn build_package(req: &BuildRequest, manifest: &ManifestView) -> (r: Result<
    PackagePlan,
    OrchestratorError,
>)
    requires
        req.kind is Package,
    ensures
        r is Ok <==> spec_not_variant_sensitive(*manifest),
        r matches Err(e) ==> {
            &&& manifest.package_features_present ==> (e matches
                OrchestratorError::PackageFeatures { name, path } && name@
                == manifest.manifest_name@ && path@ == req.manifest_file@)
            &&& !manifest.package_features_present ==> (e matches
                OrchestratorError::VariantSensitive { name, path } && name@
                == manifest.manifest_name@ && path@ == req.manifest_file@)
        },
        r matches Ok(p) ==> spec_package_plan(*req, *manifest, p),
{
    let initial = initial_triggers(req);
    match ensure_package_is_not_variant_sensitive(manifest, req.manifest_file.as_str()) {
        Ok(()) => {},
        Err(e) => {
            return Err(e);
        },
    }
    let fetches = match &manifest.external_files {
        Some(fs) => clone_files(fs),
        None => Vec::new(),
    };
    proof {
        if manifest.external_files is None {
            assert(fetches.deep_view() =~= Seq::<ExternalFileV>::empty());
        }
    }
    let bundles = collect_bundles(&fetches);
    let dirs = match &manifest.source_groups {
        Some(gs) => crawl_dirs(req.sources_dir.as_str(), gs),
        None => Vec::new(),
    };
    proof {
        if manifest.source_groups is None {
            assert(dirs.deep_view() =~= Seq::<Seq<char>>::empty());
        }
    }
    let mut spec_file = manifest.package_name.clone();
    spec_file.append(".spec");
    Ok(
        PackagePlan {
            initial_triggers: initial,
            fetches,
            bundles,
            crawl_dirs: dirs,
            spec_file,
        },
    )
}

/// The full rebuild-trigger list of a package build, in announcement order:
/// the initial triggers, every crawled source file, the spec file itself,
/// and every source and patch the spec file lists.
pub open spec fn spec_package_triggers(
    p: PackagePlan,
    crawled: Seq<Seq<char>>,
    spec_sources: Seq<Seq<char>>,
    spec_patches: Seq<Seq<char>>,
) -> Seq<Seq<char>> {
    p.initial_triggers.deep_view() + crawled + seq![p.spec_file@] + spec_sources + spec_patches
}

/// Collects the full rebuild-trigger list of a package build once the
/// crawled source files and the spec file's source and patch lists are
/// known. Every path whose change must invalidate the build appears here,
/// before the sandbox is invoked.
pub fn package_triggers(
    p: &PackagePlan,
    crawled: &Vec<String>,
    spec_sources: &Vec<String>,
    spec_patches: &Vec<String>,
) -> (r: Vec<String>)
    ensures
        r.deep_view() == spec_package_triggers(
            *p,
            crawled.deep_view(),
            spec_sources.deep_view(),
            spec_patches.deep_view(),
        ),
{
    let mut r: Vec<String> = Vec::new();
    append_all(&mut r, &p.initial_triggers);
    append_all(&mut r, crawled);
    push_deep(&mut r, p.spec_file.clone());
    append_all(&mut r, spec_sources);
    append_all(&mut r, spec_patches);
    proof {
        assert(r.deep_view() =~= spec_package_triggers(
            *p,
            crawled.deep_view(),
            spec_sources.deep_view(),
            spec_patches.deep_view(),
        ));
    }
    r
}

/// What a kit build does between reading the manifest and invoking the
/// sandbox: only the initial triggers are announced.
#[derive(Debug)]
pub struct KitPlan {
    pub initial_triggers: Vec<String>,
}

/// What a correct kit plan holds.
pub open spec fn spec_kit_plan(req: BuildRequest, p: KitPlan) -> bool {
    p.initial_triggers.deep_view() == spec_initial_triggers(req)
}

/// Plans a kit build: the manifest file and the external-dependency
/// metadata file are announced as triggers.
pub fn build_kit(req: &BuildRequest) -> (r: KitPlan)
    requires
        req.kind is Kit,
    ensures
        spec_kit_plan(*req, r),
{
    KitPlan { initial_triggers: initial_triggers(req) }
}

/// What a variant build does before invocation: announce the initial
/// triggers and gate on the supported architectures.
#[derive(Debug)]
pub struct VariantPlan {
    pub initial_triggers: Vec<String>,
    pub arch_decision: ArchDecision,
}

/// What a correct variant plan holds.
pub open spec fn spec_variant_plan(req: BuildRequest, m: ManifestView, p: VariantPlan) -> bool {
    &&& p.initial_triggers.deep_view() == spec_initial_triggers(req)
    &&& (p.arch_decision is Proceed <==> !spec_arch_unsupported(m, req.arch))
    &&& (p.arch_decision matches ArchDecision::SkipBuild { warning } ==> warning@
        == spec_arch_warning(req.arch, m.supported_arches->Some_0@))
}

/// Plans a variant build: announces the initial triggers and gates on the
/// manifest's supported architectures.
pub fn build_variant(req: &BuildRequest, manifest: &ManifestView) -> (r: VariantPlan)
    requires
        req.kind is Variant,
    ensures
        spec_variant_plan(*req, *manifest, r),
{
    VariantPlan {
        initial_triggers: initial_triggers(req),
        arch_decision: check_arch_support(manifest, req.arch),
    }
}

/// What a repack build does before invocation: only the architecture gate;
/// no triggers are announced.
#[derive(Debug)]
pub struct RepackPlan {
    pub arch_decision: ArchDecision,
}

/// What a correct repack plan holds.
pub open spec fn spec_repack_plan(req: BuildRequest, m: ManifestView, p: RepackPlan) -> bool {
    &&& (p.arch_decision is Proceed <==> !spec_arch_unsupported(m, req.arch))
    &&& (p.arch_decision matches ArchDecision::SkipBuild { warning } ==> warning@
        == spec_arch_warning(req.arch, m.supported_arches->Some_0@))
}

/// Plans a repack-variant build: gates on the manifest's supported
/// architectures; a repack announces no triggers of its own.
pub fn repack_variant(req: &BuildRequest, manifest: &ManifestView) -> (r: RepackPlan)
    requires
        req.kind is RepackVariant,
    ensures
        spec_repack_plan(*req, *manifest, r),
{
    RepackPlan { arch_decision: check_arch_support(manifest, req.arch) }
}

/// The plan a build request resolves to, by kind.
#[derive(Debug)]
pub enum BuildPlan {
    Package(PackagePlan),
    Kit(KitPlan),
    Variant(VariantPlan),
    Repack(RepackPlan),
}

/// Dispatches a build request to its kind's planner. Only a package build
/// can fail here (on the deprecated variant-sensitivity keys); every other
/// kind always produces its plan.
pub fn run(req: &BuildRequest, manifest: &ManifestView) -> (r: Result<
    BuildPlan,
    OrchestratorError,
>)
    ensures
        r is Err <==> (req.kind is Package && !spec_not_variant_sensitive(*manifest)),
        r matches Ok(p) ==> match p {
            BuildPlan::Package(p) => req.kind is Package && spec_package_plan(*req, *manifest, p),
            BuildPlan::Kit(p) => req.kind is Kit && spec_kit_plan(*req, p),
            BuildPlan::Variant(p) => req.kind is Variant && spec_variant_plan(*req, *manifest, p),
            BuildPlan::Repack(p) => req.kind is RepackVariant && spec_repack_plan(
                *req,
                *manifest,
                p,
            ),
        },
{
    match req.kind {
        BuildKind::Package => match build_package(req, manifest) {
            Ok(p) => Ok(BuildPlan::Package(p)),
            Err(e) => Err(e),
        },
        BuildKind::Kit => Ok(BuildPlan::Kit(build_kit(req))),
        BuildKind::Variant => Ok(BuildPlan::Variant(build_variant(req, manifest))),
        BuildKind::RepackVariant => Ok(BuildPlan::Repack(repack_variant(req, manifest))),
    }
}

/// The states of one build request.
#[derive(Debug, Clone, Copy, PartialEq, Eq, Structural)]
pub enum BuildState {
    Initialized,
    InputsResolved,
    Invoked,
    Succeeded,
    Failed,
}

/// What happens once inputs are resolved: skip the whole build successfully
/// (unsupported architecture, with a warning, or the short-circuit flag), or
/// invoke the sandbox.
#[derive(Debug, Clone, Copy, PartialEq, Eq, Structural)]
pub enum InvocationDecision {
    SkipUnsupportedArch,
    SkipShortCircuit,
    Invoke,
}

/// The invocation decision for a request: variant and repack builds with an
/// unsupported target architecture are skipped (a success by design); the
/// short-circuit flag skips invocation after inputs are resolved; otherwise
/// the sandbox is invoked.
pub open spec fn spec_decide_invocation(req: BuildRequest, m: ManifestView) -> InvocationDecision {
    if (req.kind is Variant || req.kind is RepackVariant) && spec_arch_unsupported(m, req.arch) {
        InvocationDecision::SkipUnsupportedArch
    } else if req.cicd_hack {
        InvocationDecision::SkipShortCircuit
    } else {
        InvocationDecision::Invoke
    }
}

/// Decides whether the sandbox is invoked for this request.
pub fn decide_invocation(req: &BuildRequest, manifest: &ManifestView) -> (r: InvocationDecision)
    ensures
        r == spec_decide_invocation(*req, *manifest),
{
    let arch_gated = match req.kind {
        BuildKind::Variant => true,
        BuildKind::RepackVariant => true,
        _ => false,
    };
    if arch_gated {
        match check_arch_support(manifest, req.arch) {
            ArchDecision::SkipBuild { .. } => {
                return InvocationDecision::SkipUnsupportedArch;
            },
            ArchDecision::Proceed => {},
        }
    }
    if req.cicd_hack {
        InvocationDecision::SkipShortCircuit
    } else {
        InvocationDecision::Invoke
    }
}

/// The state after applying an invocation decision to a run whose inputs are
/// resolved: skipped builds succeed without ever being invoked.
pub open spec fn spec_apply_decision(d: InvocationDecision) -> BuildState {
    match d {
        InvocationDecision::SkipUnsupportedArch => BuildState::Succeeded,
        InvocationDecision::SkipShortCircuit => BuildState::Succeeded,
        InvocationDecision::Invoke => BuildState::Invoked,
    }
}

/// The final state an exit status determines: zero succeeds, anything else
/// fails the whole request.
pub open spec fn spec_exit_state(code: i32) -> BuildState {
    if code == 0 {
        BuildState::Succeeded
    } else {
        BuildState::Failed
    }
}

/// A variant or repack request whose target architecture the manifest rules
/// out is never invoked: its decision is the skip, and applying it ends the
/// run as a success without passing through the invoked state.
pub proof fn lemma_unsupported_arch_never_invokes(req: BuildRequest, m: ManifestView)
    requires
        req.kind is Variant || req.kind is RepackVariant,
        spec_arch_unsupported(m, req.arch),
    ensures
        spec_decide_invocation(req, m) is SkipUnsupportedArch,
        spec_apply_decision(spec_decide_invocation(req, m)) == BuildState::Succeeded,
        spec_apply_decision(spec_decide_invocation(req, m)) != BuildState::Invoked,
{
}

/// One build request's progress through its states.
#[derive(Debug)]
pub struct BuildRun {
    pub kind: BuildKind,
    pub state: BuildState,
}

impl BuildRun {
    /// A fresh run for one request.
    pub fn new(kind: BuildKind) -> (r: BuildRun)
        ensures
            r.kind == kind,
            r.state is Initialized,
    {
        BuildRun { kind, state: BuildState::Initialized }
    }

    /// Records that every declared input is resolved: the manifest was read
    /// and validated, external files fetched and verified, bundling done,
    /// and every rebuild trigger announced.
    pub fn inputs_resolved(&mut self)
        requires
            old(self).state is Initialized,
        ensures
            final(self).state is InputsResolved,
            final(self).kind == old(self).kind,
    {
        self.state = BuildState::InputsResolved;
    }

    /// Records that resolving inputs failed; the request is failed.
    pub fn fail_inputs(&mut self)
        requires
            old(self).state is Initialized,
        ensures
            final(self).state is Failed,
            final(self).kind == old(self).kind,
    {
        self.state = BuildState::Failed;
    }

    /// Applies the invocation decision: skipped builds end as successes
    /// without ever being invoked; otherwise the run is now invoked.
    pub fn apply_decision(&mut self, d: InvocationDecision)
        requires
            old(self).state is InputsResolved,
        ensures
            final(self).state == spec_apply_decision(d),
            final(self).kind == old(self).kind,
    {
        match d {
            InvocationDecision::SkipUnsupportedArch => {
                self.state = BuildState::Succeeded;
            },
            InvocationDecision::SkipShortCircuit => {
                self.state = BuildState::Succeeded;
            },
            InvocationDecision::Invoke => {
                self.state = BuildState::Invoked;
            },
        }
    }

    /// Records the sandbox executor's exit status: zero succeeds, anything
    /// else fails the whole request.
    pub fn record_exit(&mut self, code: i32)
        requires
            old(self).state is Invoked,
        ensures
            final(self).state == spec_exit_state(code),
            final(self).kind == old(self).kind,
    {
        if code == 0 {
            self.state = BuildState::Succeeded;
        } else {
            self.state = BuildState::Failed;
        }
    }
}

/// Concatenating duplicate-free, pairwise-disjoint segments keeps the result
/// duplicate-free.
proof fn lemma_concat_no_dup(a: Seq<Seq<char>>, b: Seq<Seq<char>>)
    requires
        a.no_duplicates(),
        b.no_duplicates(),
        forall|x: Seq<char>| a.contains(x) ==> !b.contains(x),
    ensures
        (a + b).no_duplicates(),
{
    let c = a + b;
    assert forall|i: int, j: int| 0 <= i < j < c.len() implies c[i] != c[j] by {
        if j < a.len() {
            assert(c[i] == a[i] && c[j] == a[j]);
        } else if i >= a.len() {
            assert(c[i] == b[i - a.len()] && c[j] == b[j - a.len()]);
        } else {
            assert(c[i] == a[i] && c[j] == b[j - a.len()]);
            assert(a.contains(a[i]));
            assert(b.contains(b[j - a.len()]));
        }
    }
}

/// Rebuild triggers are announced exactly once: when the crawled files, the
/// spec file's sources and its patches are each duplicate-free, none of them
/// repeats a path of another segment, and the initial triggers are distinct,
/// the announced trigger list holds no path twice.
pub proof fn lemma_triggers_announced_once(
    p: PackagePlan,
    crawled: Seq<Seq<char>>,
    spec_sources: Seq<Seq<char>>,
    spec_patches: Seq<Seq<char>>,
)
    requires
        p.initial_triggers.deep_view().no_duplicates(),
        crawled.no_duplicates(),
        spec_sources.no_duplicates(),
        spec_patches.no_duplicates(),
        forall|x: Seq<char>|
            #[trigger] p.initial_triggers.deep_view().contains(x) ==> !crawled.contains(x)
                && x != p.spec_file@ && !spec_sources.contains(x) && !spec_patches.contains(x),
        forall|x: Seq<char>|
            #[trigger] crawled.contains(x) ==> x != p.spec_file@ && !spec_sources.contains(x)
                && !spec_patches.contains(x),
        !spec_sources.contains(p.spec_file@),
        !spec_patches.contains(p.spec_file@),
        forall|x: Seq<char>| #[trigger] spec_sources.contains(x) ==> !spec_patches.contains(x),
    ensures
        spec_package_triggers(p, crawled, spec_sources, spec_patches).no_duplicates(),
{
    let init = p.initial_triggers.deep_view();
    let spec_seq = seq![p.spec_file@];
    assert(spec_seq.no_duplicates());
    lemma_concat_no_dup(init, crawled);
    assert forall|x: Seq<char>| (init + crawled).contains(x) implies !spec_seq.contains(x) by {
        let i = choose|i: int| 0 <= i < (init + crawled).len() && (init + crawled)[i] == x;
        if i < init.len() {
            assert(init.contains(x));
        } else {
            assert(crawled.contains(x));
        }
        assert(spec_seq.contains(x) ==> x == p.spec_file@);
    }
    lemma_concat_no_dup(init + crawled, spec_seq);
    assert forall|x: Seq<char>| (init + crawled + spec_seq).contains(x) implies !spec_sources.contains(
        x,
    ) by {
        let i = choose|i: int|
            0 <= i < (init + crawled + spec_seq).len() && (init + crawled + spec_seq)[i] == x;
        if i < init.len() {
            assert(init.contains(x));
        } else if i < init.len() + crawled.len() {
            assert(crawled.contains(x));
        } else {
            assert(x == p.spec_file@);
        }
    }
    lemma_concat_no_dup(init + crawled + spec_seq, spec_sources);
    assert forall|x: Seq<char>| (init + crawled + spec_seq + spec_sources).contains(x)
        implies !spec_patches.contains(x) by {
        let i = choose|i: int|
            0 <= i < (init + crawled + spec_seq + spec_sources).len() && (init + crawled + spec_seq
                + spec_sources)[i] == x;
        if i < init.len() {
            assert(init.contains(x));
        } else if i < init.len() + crawled.len() {
            assert(crawled.contains(x));
        } else if i < init.len() + crawled.len() + 1 {
            assert(x == p.spec_file@);
        } else {
            assert(spec_sources.contains(x));
        }
    }
    lemma_concat_no_dup(init + crawled + spec_seq + spec_sources, spec_patches);
    assert(spec_package_triggers(p, crawled, spec_sources, spec_patches) =~= init + crawled
        + spec_seq + spec_sources + spec_patches);
}

} // verus!
