//! The image-tool façade: a uniform capability surface over two
//! interchangeable command-line backends for pull, push and inspect
//! operations on container images — a direct registry client (the crane
//! family) and a container daemon. The backend is selected by an
//! environment override or by probing which tool is installed, in a fixed
//! preference order: the direct client is preferred, the daemon is the
//! fallback.
//!
//! This module decides which tool to use and what command line each
//! operation runs, and parses the label metadata an inspect operation
//! returns. Spawning the processes is the caller's business.
use vstd::prelude::*;

use crate::text::append_all;
use crate::text::push_deep;
use crate::text::str_eq;

verus! {

/// Why an image-tool operation failed.
#[derive(Debug, PartialEq, Eq)]
pub enum ImageToolError {
    /// The image config's label schema did not match expectations.
    ConfigDeserialize,
    /// An architecture name no backend understands.
    InvalidArchitecture { value: String },
    /// The named tool is not installed in the current environment.
    NotFound { name: String },
    /// No supported container image tool is installed at all.
    NoneFound,
    /// The environment override names a tool this façade does not support.
    Unsupported { name: String },
    /// A backend command exited unsuccessfully; the command and its
    /// arguments are kept for diagnosis.
    OperationFailed { message: String, program: String, args: Vec<String> },
}

/// The space-separated rendering of an argument list.
pub open spec fn spec_args_text(s: Seq<Seq<char>>) -> Seq<char>
    decreases s.len(),
{
    if s.len() == 0 {
        Seq::<char>::empty()
    } else if s.len() == 1 {
        s[0]
    } else {
        spec_args_text(s.drop_last()) + seq![' '] + s.last()
    }
}

fn args_text(s: &Vec<String>) -> (r: String)
    ensures
        r@ == spec_args_text(s.deep_view()),
{
    let mut r = String::new();
    let len = s.len();
    for i in 0..len
        invariant
            len == s@.len(),
            r@ == spec_args_text(s.deep_view().take(i as int)),
    {
        if i > 0 {
            r.append(" ");
        }
        r.append(s[i].as_str());
        proof {
            reveal_strlit(" ");
            assert(s.deep_view().take(i + 1).drop_last() =~= s.deep_view().take(i as int));
            assert(s.deep_view().take(i + 1).last() == s@[i as int].deep_view());
            assert(r@ =~= spec_args_text(s.deep_view().take(i + 1)));
        }
    }
    proof {
        assert(s.deep_view().take(s.deep_view().len() as int) =~= s.deep_view());
    }
    r
}

impl ImageToolError {
    /// The single human-readable line describing the failure. A failed
    /// operation always reports the full invoked command and arguments.
    pub fn message(&self) -> (r: String)
        ensures
            self is ConfigDeserialize ==> r@ == "failed to deserialize image config"@,
            self matches ImageToolError::InvalidArchitecture { value } ==> r@
                == "invalid architecture "@ + value@,
            self matches ImageToolError::NotFound { name } ==> r@
                == "unable to find a container image tool by name "@ + name@
                + " in current environment"@,
            self is NoneFound ==> r@
                == "unable to find any supported container image tool; install docker or crane"@,
            self matches ImageToolError::Unsupported { name } ==> r@
                == "unsupported container image tool "@ + name@,
            self matches ImageToolError::OperationFailed { message, program, args } ==> r@
                == "failed to run operation with image tool: "@ + message@ + "; command: "@
                + program@ + seq![' '] + spec_args_text(args.deep_view()),
    {
        match self {
            ImageToolError::ConfigDeserialize => "failed to deserialize image config".to_owned(),
            ImageToolError::InvalidArchitecture { value } => {
                let mut s: String = "invalid architecture ".to_owned();
                s.append(value.as_str());
                s
            },
            ImageToolError::NotFound { name } => {
                let mut s: String = "unable to find a container image tool by name ".to_owned();
                s.append(name.as_str());
                s.append(" in current environment");
                s
            },
            ImageToolError::NoneFound => {
                "unable to find any supported container image tool; install docker or crane".to_owned()
            },
            ImageToolError::Unsupported { name } => {
                let mut s: String = "unsupported container image tool ".to_owned();
                s.append(name.as_str());
                s
            },
            ImageToolError::OperationFailed { message, program, args } => {
                let mut s: String = "failed to run operation with image tool: ".to_owned();
                s.append(message.as_str());
                s.append("; command: ");
                s.append(program.as_str());
                s.append(" ");
                s.append(args_text(args).as_str());
                proof {
                    reveal_strlit(" ");
                    assert(s@ =~= "failed to run operation with image tool: "@ + message@
                        + "; command: "@ + program@ + seq![' '] + spec_args_text(args.deep_view()));
                }
                s
            },
        }
    }
}

/// An architecture as container tooling names it.
#[derive(Debug, Clone, Copy, PartialEq, Eq, Structural)]
pub enum DockerArchitecture {
    Amd64,
    Arm64,
}

/// The text of a container-tool architecture name.
pub open spec fn spec_docker_arch_text(a: DockerArchitecture) -> Seq<char> {
    match a {
        DockerArchitecture::Amd64 => "amd64"@,
        DockerArchitecture::Arm64 => "arm64"@,
    }
}

impl DockerArchitecture {
    /// Renders the architecture as container tooling spells it.
    pub fn to_text(&self) -> (r: String)
        ensures
            r@ == spec_docker_arch_text(*self),
    {
        match self {
            DockerArchitecture::Amd64 => "amd64".to_owned(),
            DockerArchitecture::Arm64 => "arm64".to_owned(),
        }
    }

    /// Parses an architecture name: both the kernel spellings (`x86_64`,
    /// `aarch64`) and the container-tool spellings (`amd64`, `arm64`) are
    /// accepted; anything else is an invalid-architecture error naming the
    /// offending value.
    pub fn try_from(value: &str) -> (r: Result<DockerArchitecture, ImageToolError>)
        ensures
            r == Ok::<DockerArchitecture, ImageToolError>(DockerArchitecture::Amd64) <==> (value@
                == "x86_64"@ || value@ == "amd64"@),
            r == Ok::<DockerArchitecture, ImageToolError>(DockerArchitecture::Arm64) <==> (value@
                == "aarch64"@ || value@ == "arm64"@),
            r matches Err(e) ==> e matches ImageToolError::InvalidArchitecture { value: v } && v@
                == value@,
    {
        proof {
            reveal_strlit("x86_64");
            reveal_strlit("amd64");
            reveal_strlit("aarch64");
            reveal_strlit("arm64");
            assert("x86_64"@.len() != "aarch64"@.len() && "x86_64"@.len() != "arm64"@.len());
            assert("amd64"@.len() != "aarch64"@.len());
            assert("amd64"@[1] != "arm64"@[1]);
        }
        if str_eq(value, "x86_64") || str_eq(value, "amd64") {
            Ok(DockerArchitecture::Amd64)
        } else if str_eq(value, "aarch64") || str_eq(value, "arm64") {
            Ok(DockerArchitecture::Arm64)
        } else {
            Err(ImageToolError::InvalidArchitecture { value: value.to_owned() })
        }
    }
}

/// The label metadata of an image config, as key/value pairs in the order
/// the backend reports them (sorted by key).
#[derive(Debug, PartialEq, Eq)]
pub struct ConfigView {
    pub labels: Vec<(String, String)>,
}

/// The mathematical value of parsed label metadata.
pub open spec fn spec_labels(c: ConfigView) -> Seq<(Seq<char>, Seq<char>)> {
    Seq::new(c.labels@.len(), |i: int| (c.labels@[i].0@, c.labels@[i].1@))
}

/// The labels parsed from an image-config JSON document: the string-valued
/// entries of its `config.Labels` object in key order, or nothing when the
/// document does not hold such an object of strings. Left abstract: the
/// `serde_json` crate decides it.
pub uninterp spec fn config_labels_of(bytes: Seq<u8>) -> Option<Seq<(Seq<char>, Seq<char>)>>;

/// Relies on `serde_json::from_slice` and the `serde_json::Value` accessors:
/// the parse is a function of the bytes alone (the default object map is
/// ordered by key), and bytes without a `config.Labels` object of strings
/// parse to nothing.
#[verifier::external_body]
fn parse_config_labels(bytes: &[u8]) -> (r: Option<ConfigView>)
    ensures
        r is Some <==> config_labels_of(bytes@) is Some,
        r matches Some(c) ==> Some(spec_labels(c)) == config_labels_of(bytes@),
{
    let v: serde_json::Value = match serde_json::from_slice(bytes) {
        Ok(v) => v,
        Err(_) => return None,
    };
    let obj = v.get("config").and_then(|c| c.get("Labels")).and_then(|l| l.as_object())?;
    let mut labels: Vec<(String, String)> = Vec::new();
    for (k, val) in obj {
        labels.push((k.clone(), val.as_str()?.to_string()));
    }
    Some(ConfigView { labels })
}

/// Parses the label metadata out of an image config document. Bytes whose
/// label schema does not match expectations fail with a distinct,
/// attributable error kind.
pub fn config_view_from_bytes(bytes: &[u8]) -> (r: Result<ConfigView, ImageToolError>)
    ensures
        r is Ok <==> config_labels_of(bytes@) is Some,
        r matches Ok(c) ==> Some(spec_labels(c)) == config_labels_of(bytes@),
        r matches Err(e) ==> e is ConfigDeserialize,
{
    match parse_config_labels(bytes) {
        Some(c) => Ok(c),
        None => Err(ImageToolError::ConfigDeserialize),
    }
}

/// Relies on `log::max_level`: reads the process-wide log filter. The filter
/// can be changed at any time, so nothing is promised of the result.
#[verifier::external_body]
fn debug_logging_enabled() -> bool {
    log::max_level() >= log::LevelFilter::Debug
}

/// A crane command line is its base arguments, optionally preceded by the
/// verbose flag.
pub open spec fn spec_crane_invocation(r: Seq<Seq<char>>, base: Seq<Seq<char>>) -> bool {
    r == base || r == seq!["-v"@] + base
}

/// The direct registry-client backend: one of the crane family of tools.
#[derive(Debug)]
pub struct CraneCLI {
    /// The path of the tool's executable.
    pub path: String,
}

/// The member arguments of a multi-platform index push: `-m <image>` for
/// each platform image, in order.
pub open spec fn spec_member_args(imgs: Seq<(DockerArchitecture, String)>) -> Seq<Seq<char>>
    decreases imgs.len(),
{
    if imgs.len() == 0 {
        Seq::<Seq<char>>::empty()
    } else {
        spec_member_args(imgs.drop_last()) + seq!["-m"@, imgs.last().1@]
    }
}

impl CraneCLI {
    /// Prefixes the verbose flag when debug logging is enabled.
    pub fn crane_cmd(cmd: &Vec<String>) -> (r: Vec<String>)
        ensures
            spec_crane_invocation(r.deep_view(), cmd.deep_view()),
    {
        let mut r: Vec<String> = Vec::new();
        if debug_logging_enabled() {
            push_deep(&mut r, "-v".to_owned());
        }
        append_all(&mut r, cmd);
        proof {
            if r.deep_view().len() == cmd.deep_view().len() {
                assert(r.deep_view() =~= cmd.deep_view());
            } else {
                assert(r.deep_view() =~= seq!["-v"@] + cmd.deep_view());
            }
        }
        r
    }

    /// The command that pulls an image archive in OCI format to a local
    /// path.
    pub fn pull_command(&self, archive_path: &str, uri: &str) -> (r: Vec<String>)
        ensures
            spec_crane_invocation(
                r.deep_view(),
                seq!["pull"@, "--format"@, "oci"@, uri@, archive_path@],
            ),
    {
        let mut base: Vec<String> = Vec::new();
        push_deep(&mut base, "pull".to_owned());
        push_deep(&mut base, "--format".to_owned());
        push_deep(&mut base, "oci".to_owned());
        push_deep(&mut base, uri.to_owned());
        push_deep(&mut base, archive_path.to_owned());
        proof {
            assert(base.deep_view() =~= seq!["pull"@, "--format"@, "oci"@, uri@, archive_path@]);
        }
        Self::crane_cmd(&base)
    }

    /// The command that fetches an image's manifest bytes.
    pub fn manifest_command(&self, uri: &str) -> (r: Vec<String>)
        ensures
            spec_crane_invocation(r.deep_view(), seq!["manifest"@, uri@]),
    {
        let mut base: Vec<String> = Vec::new();
        push_deep(&mut base, "manifest".to_owned());
        push_deep(&mut base, uri.to_owned());
        proof {
            assert(base.deep_view() =~= seq!["manifest"@, uri@]);
        }
        Self::crane_cmd(&base)
    }

    /// The command that fetches an image's config document.
    pub fn config_command(&self, uri: &str) -> (r: Vec<String>)
        ensures
            spec_crane_invocation(r.deep_view(), seq!["config"@, uri@]),
    {
        let mut base: Vec<String> = Vec::new();
        push_deep(&mut base, "config".to_owned());
        push_deep(&mut base, uri.to_owned());
        proof {
            assert(base.deep_view() =~= seq!["config"@, uri@]);
        }
        Self::crane_cmd(&base)
    }

    /// The command that pushes an unpacked single-architecture image (the
    /// archive is unpacked into a directory first; the caller hands that
    /// directory's path over).
    pub fn push_command(&self, unpacked_dir: &str, uri: &str) -> (r: Vec<String>)
        ensures
            spec_crane_invocation(r.deep_view(), seq!["push"@, unpacked_dir@, uri@]),
    {
        let mut base: Vec<String> = Vec::new();
        push_deep(&mut base, "push".to_owned());
        push_deep(&mut base, unpacked_dir.to_owned());
        push_deep(&mut base, uri.to_owned());
        proof {
            assert(base.deep_view() =~= seq!["push"@, unpacked_dir@, uri@]);
        }
        Self::crane_cmd(&base)
    }

    /// The command that pushes a multi-architecture index referencing the
    /// given platform images under the given tag.
    pub fn index_append_command(
        &self,
        platform_images: &Vec<(DockerArchitecture, String)>,
        uri: &str,
    ) -> (r: Vec<String>)
        ensures
            spec_crane_invocation(
                r.deep_view(),
                seq!["index"@, "append"@] + spec_member_args(platform_images@) + seq![
                    "-t"@,
                    uri@,
                ],
            ),
    {
        let mut base: Vec<String> = Vec::new();
        push_deep(&mut base, "index".to_owned());
        push_deep(&mut base, "append".to_owned());
        let len = platform_images.len();
        for i in 0..len
            invariant
                len == platform_images@.len(),
                base.deep_view() == seq!["index"@, "append"@] + spec_member_args(
                    platform_images@.take(i as int),
                ),
        {
            push_deep(&mut base, "-m".to_owned());
            push_deep(&mut base, platform_images[i].1.clone());
            proof {
                assert(platform_images@.take(i + 1).drop_last() =~= platform_images@.take(i as int));
                assert(platform_images@.take(i + 1).last() == platform_images@[i as int]);
                assert(base.deep_view() =~= seq!["index"@, "append"@] + spec_member_args(
                    platform_images@.take(i + 1),
                ));
            }
        }
        proof {
            assert(platform_images@.take(platform_images@.len() as int) =~= platform_images@);
        }
        push_deep(&mut base, "-t".to_owned());
        push_deep(&mut base, uri.to_owned());
        proof {
            assert(base.deep_view() =~= seq!["index"@, "append"@] + spec_member_args(
                platform_images@,
            ) + seq!["-t"@, uri@]);
        }
        Self::crane_cmd(&base)
    }
}

/// Whether a command argument can not be handed to an external process as
/// is: process argument strings cannot carry a NUL byte.
pub fn arg_has_nul(arg: &[u8]) -> (r: bool)
    ensures
        r == exists|i: int| 0 <= i < arg@.len() && arg@[i] == 0u8,
{
    let len = arg.len();
    for i in 0..len
        invariant
            len == arg@.len(),
            forall|j: int| 0 <= j < i ==> arg@[j] != 0u8,
    {
        if arg[i] == 0u8 {
            return true;
        }
    }
    false
}

/// The two interchangeable backends.
#[derive(Debug, Clone, Copy, PartialEq, Eq, Structural)]
pub enum ToolKind {
    Crane,
    Docker,
}

/// The backend the façade selected, and where its executable lives.
#[derive(Debug, PartialEq, Eq)]
pub struct ToolSelection {
    pub kind: ToolKind,
    pub path: String,
}

/// The text of an optional probe result.
pub open spec fn spec_opt_text(o: Option<String>) -> Option<Seq<char>> {
    match o {
        Some(s) => Some(s@),
        None => None,
    }
}

/// What a correct tool selection holds, given the environment override and
/// the probe results for the four known tool names. An override must name
/// one of the supported tools and that tool must be installed; without an
/// override the crane family is probed first (krane, then gcrane, then
/// crane) and the daemon is the fallback.
pub open spec fn spec_tool_selected(
    r: Result<ToolSelection, ImageToolError>,
    env: Option<Seq<char>>,
    krane: Option<Seq<char>>,
    gcrane: Option<Seq<char>>,
    crane: Option<Seq<char>>,
    docker: Option<Seq<char>>,
) -> bool {
    match env {
        Some(name) => {
            if name == "docker"@ {
                match docker {
                    Some(p) => r matches Ok(s) && s.kind is Docker && s.path@ == p,
                    None => r matches Err(e) && e matches ImageToolError::NotFound { name: n }
                        && n@ == name,
                }
            } else if name == "crane"@ || name == "gcrane"@ || name == "krane"@ {
                let probe = if name == "krane"@ {
                    krane
                } else if name == "gcrane"@ {
                    gcrane
                } else {
                    crane
                };
                match probe {
                    Some(p) => r matches Ok(s) && s.kind is Crane && s.path@ == p,
                    None => r matches Err(e) && e matches ImageToolError::NotFound { name: n }
                        && n@ == name,
                }
            } else {
                r matches Err(e) && e matches ImageToolError::Unsupported { name: n } && n@ == name
            }
        },
        None => {
            if krane is Some {
                r matches Ok(s) && s.kind is Crane && s.path@ == krane->Some_0
            } else if gcrane is Some {
                r matches Ok(s) && s.kind is Crane && s.path@ == gcrane->Some_0
            } else if crane is Some {
                r matches Ok(s) && s.kind is Crane && s.path@ == crane->Some_0
            } else {
                match docker {
                    Some(p) => r matches Ok(s) && s.kind is Docker && s.path@ == p,
                    None => r matches Err(e) && e is NoneFound,
                }
            }
        },
    }
}

/// Selects the backend, given the environment override and the probe
/// results for the four known tool names. Pure and deterministic for a
/// given environment snapshot.
pub fn select_tool(
    env_override: &Option<String>,
    krane: &Option<String>,
    gcrane: &Option<String>,
    crane: &Option<String>,
    docker: &Option<String>,
) -> (r: Result<ToolSelection, ImageToolError>)
    ensures
        spec_tool_selected(
            r,
            spec_opt_text(*env_override),
            spec_opt_text(*krane),
            spec_opt_text(*gcrane),
            spec_opt_text(*crane),
            spec_opt_text(*docker),
        ),
{
    match env_override {
        Some(name) => {
            if str_eq(name.as_str(), "docker") {
                match docker {
                    Some(p) => Ok(ToolSelection { kind: ToolKind::Docker, path: p.clone() }),
                    None => Err(ImageToolError::NotFound { name: name.clone() }),
                }
            } else if str_eq(name.as_str(), "crane") || str_eq(name.as_str(), "gcrane") || str_eq(
                name.as_str(),
                "krane",
            ) {
                let probe: &Option<String> = if str_eq(name.as_str(), "krane") {
                    krane
                } else if str_eq(name.as_str(), "gcrane") {
                    gcrane
                } else {
                    crane
                };
                match probe {
                    Some(p) => Ok(ToolSelection { kind: ToolKind::Crane, path: p.clone() }),
                    None => Err(ImageToolError::NotFound { name: name.clone() }),
                }
            } else {
                Err(ImageToolError::Unsupported { name: name.clone() })
            }
        },
        None => {
            if let Some(p) = krane {
                return Ok(ToolSelection { kind: ToolKind::Crane, path: p.clone() });
            }
            if let Some(p) = gcrane {
                return Ok(ToolSelection { kind: ToolKind::Crane, path: p.clone() });
            }
            if let Some(p) = crane {
                return Ok(ToolSelection { kind: ToolKind::Crane, path: p.clone() });
            }
            match docker {
                Some(p) => Ok(ToolSelection { kind: ToolKind::Docker, path: p.clone() }),
                None => Err(ImageToolError::NoneFound),
            }
        },
    }
}

/// Relies on `which::which`: finds an executable by name in the current
/// environment. The result depends on the environment, so nothing is
/// promised of it.
#[verifier::external_body]
fn which_path(name: &str) -> Option<String> {
    which::which(name).ok().map(|p| p.to_string_lossy().into_owned())
}

/// Selects the container tool to use, from the environment override (the
/// caller reads it) and by probing the execution environment for the known
/// tool names. Which tools are installed depends on the environment; an
/// override naming an unsupported tool is always rejected, and a selection
/// honours the override's backend.
pub fn image_tool(env_override: Option<String>) -> (r: Result<ToolSelection, ImageToolError>)
    ensures
        env_override matches Some(name) ==> ((name@ != "docker"@ && name@ != "crane"@ && name@
            != "gcrane"@ && name@ != "krane"@) ==> (r matches Err(e) && e matches
            ImageToolError::Unsupported { name: n } && n@ == name@)),
        r matches Ok(s) ==> (env_override matches Some(name) ==> (s.kind is Docker <==> name@
            == "docker"@)),
{
    let krane = which_path("krane");
    let gcrane = which_path("gcrane");
    let crane = which_path("crane");
    let docker = which_path("docker");
    select_tool(&env_override, &krane, &gcrane, &crane, &docker)
}

} // verus!
