//! Checks that the current environment carries the system tools the build
//! needs, before any build work begins.
use vstd::prelude::*;

use crate::text::push_deep;

verus! {

/// Relies on `which::which_global`: whether an executable with this name is
/// on the search path (ignoring the working directory). Depends on the
/// environment, so nothing is promised of the result.
#[verifier::external_body]
fn tool_installed(name: &str) -> bool {
    which::which_global(name).is_ok()
}

/// Why the environment was rejected.
#[derive(Debug, PartialEq, Eq)]
pub enum PreflightError {
    /// A required tool is not on the search path.
    MissingTool { name: String },
}

impl PreflightError {
    /// The single human-readable line describing the failure.
    pub fn message(&self) -> (r: String)
        ensures
            self matches PreflightError::MissingTool { name } ==> r@
                == "failed to find required tool "@ + name@ + " in PATH"@,
    {
        match self {
            PreflightError::MissingTool { name } => {
                let mut s: String = "failed to find required tool ".to_owned();
                s.append(name.as_str());
                s.append(" in PATH");
                s
            },
        }
    }
}

/// The system tools every build needs on the search path.
pub open spec fn spec_required_tools() -> Seq<Seq<char>> {
    seq!["docker"@, "gzip"@, "lz4"@]
}

/// The list of required tool names.
pub fn required_tools() -> (r: Vec<String>)
    ensures
        r.deep_view() == spec_required_tools(),
{
    let mut r: Vec<String> = Vec::new();
    push_deep(&mut r, "docker".to_owned());
    push_deep(&mut r, "gzip".to_owned());
    push_deep(&mut r, "lz4".to_owned());
    proof {
        assert(r.deep_view() =~= spec_required_tools());
    }
    r
}

/// Checks that every required tool is installed. Which tools are installed
/// depends on the environment; a failure always names one of the required
/// tools.
pub fn check_for_required_tools() -> (r: Result<(), PreflightError>)
    ensures
        r matches Err(e) ==> e matches PreflightError::MissingTool { name }
            && spec_required_tools().contains(name@),
{
    let tools = required_tools();
    let len = tools.len();
    for i in 0..len
        invariant
            len == tools@.len(),
            tools.deep_view() == spec_required_tools(),
    {
        if !tool_installed(tools[i].as_str()) {
            proof {
                assert(spec_required_tools()[i as int] == tools@[i as int].deep_view());
            }
            return Err(PreflightError::MissingTool { name: tools[i].clone() });
        }
    }
    Ok(())
}

/// Checks that the current environment is compatible with the build system.
pub fn check_environment() -> (r: Result<(), PreflightError>)
    ensures
        r matches Err(e) ==> e matches PreflightError::MissingTool { name }
            && spec_required_tools().contains(name@),
{
    check_for_required_tools()
}

/// Runs all common setup required before the build process begins:
/// currently, the required-tool check.
pub fn preflight() -> (r: Result<(), PreflightError>)
    ensures
        r matches Err(e) ==> e matches PreflightError::MissingTool { name }
            && spec_required_tools().contains(name@),
{
    check_environment()
}

} // verus!
