//! Core logic of a build orchestrator for an operating-system image project:
//! validated identifiers, versioned image references with vendor overrides,
//! a checksum-verified external-artifact cache, the build-invocation state
//! machine, the image-tool selection and command construction, and an
//! interrupt-safe cleanup registry.
pub mod cache;
pub mod cleanup;
pub mod docker;
pub mod identifier;
pub mod image;
pub mod imagetool;
pub mod orchestrator;
pub mod preflight;
pub mod sdk;
pub mod text;
pub mod version;

pub use cache::compute_digest;
pub use cache::download_urls;
pub use cache::CacheConfig;
pub use cache::lemma_clamp_idempotent;
pub use cache::lemma_refetch_unchanged;
pub use cache::to_hex_lower;
pub use cache::BundleModule;
pub use cache::Cache;
pub use cache::CacheEntry;
pub use cache::DownloadOutcome;
pub use cache::ExternalFile;
pub use cache::FetchError;
pub use cleanup::lemma_sweep_exactly_once;
pub use cleanup::CleanupRegistry;
pub use cleanup::INTERRUPT_EXIT_STATUS;
pub use docker::server_version_from_output;
pub use docker::DockerError;
pub use identifier::is_valid_id_char;
pub use identifier::IdentifierError;
pub use identifier::ValidIdentifier;
pub use image::lemma_uri_override;
pub use image::resolve_project_image;
pub use image::ArtifactVendor;
pub use image::Image;
pub use image::ImageUri;
pub use image::NamedVendor;
pub use image::ProjectImage;
pub use image::ResolutionError;
pub use image::VendedArtifact;
pub use image::Vendor;
pub use image::VendorOverride;
pub use imagetool::arg_has_nul;
pub use imagetool::config_view_from_bytes;
pub use imagetool::image_tool;
pub use imagetool::select_tool;
pub use imagetool::ConfigView;
pub use imagetool::CraneCLI;
pub use imagetool::DockerArchitecture;
pub use imagetool::ImageToolError;
pub use imagetool::ToolKind;
pub use imagetool::ToolSelection;
pub use orchestrator::build_kit;
pub use orchestrator::build_package;
pub use orchestrator::build_variant;
pub use orchestrator::check_arch_support;
pub use orchestrator::decide_invocation;
pub use orchestrator::ensure_package_is_not_variant_sensitive;
pub use orchestrator::lemma_bundles_use_fetched_files;
pub use orchestrator::lemma_triggers_announced_once;
pub use orchestrator::lemma_unsupported_arch_never_invokes;
pub use orchestrator::package_triggers;
pub use orchestrator::repack_variant;
pub use orchestrator::run;
pub use orchestrator::ArchDecision;
pub use orchestrator::BuildKind;
pub use orchestrator::BuildPlan;
pub use orchestrator::BuildRequest;
pub use orchestrator::BuildRun;
pub use orchestrator::BuildState;
pub use orchestrator::BundleRequest;
pub use orchestrator::InvocationDecision;
pub use orchestrator::KitPlan;
pub use orchestrator::ManifestView;
pub use orchestrator::OrchestratorError;
pub use orchestrator::PackagePlan;
pub use orchestrator::RepackPlan;
pub use orchestrator::SupportedArch;
pub use orchestrator::VariantPlan;
pub use preflight::check_environment;
pub use preflight::check_for_required_tools;
pub use preflight::preflight;
pub use preflight::required_tools;
pub use preflight::PreflightError;
pub use sdk::SdkAction;
pub use sdk::SdkFetch;
pub use sdk::SdkFetchEvent;
pub use sdk::SdkFetchState;
pub use text::join_path;
pub use text::last_segment;
pub use text::str_eq;
pub use text::u64_to_dec_string;
pub use version::parse_semver;
pub use version::version_tag;
pub use version::Version;
