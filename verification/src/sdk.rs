//! Caching the project's SDK image locally: a state machine over the
//! blocking work the driver performs.
//!
//! The driver asks the daemon whether the SDK image is already cached; if it
//! is, nothing is fetched. Otherwise a temporary archive file is created
//! (and registered for interrupt-safe cleanup), the image is pulled into it
//! for the host platform, and the archive is loaded into the daemon. Each
//! step here decides, from the previous step's outcome, what the driver must
//! do next; the driver performs the work and hands the outcome back.
use vstd::prelude::*;

use crate::image::spec_project_image_uri;
use crate::image::spec_uri_text;
use crate::image::ProjectImage;

verus! {

/// Where one SDK fetch stands.
#[derive(Debug)]
pub enum SdkFetchState {
    /// Asking the daemon whether the image is already cached.
    CheckingCache,
    /// Creating the temporary archive file under the archive directory.
    CreatingTempFile,
    /// Asking for the host platform, with the temporary file ready.
    QueryingPlatform { temp_path: String },
    /// Pulling the image into the temporary archive.
    Pulling { temp_path: String, platform: String },
    /// Loading the pulled archive into the daemon.
    Loading { temp_path: String },
    /// The image is cached locally; `fetched` says whether a pull was
    /// needed.
    Done { fetched: bool },
    /// A pull or load failed; the fetch is abandoned.
    Failed,
}

/// What the driver reports back after performing the requested work.
#[derive(Debug)]
pub enum SdkFetchEvent {
    CacheChecked { cached: bool },
    TempFileCreated { path: String },
    PlatformKnown { platform: String },
    CommandExited { success: bool },
}

/// What the driver must do next.
#[derive(Debug)]
pub enum SdkAction {
    /// Ask the daemon whether this image URI is cached.
    CheckCache { uri: String },
    /// Create a closed temporary file under this directory and register it
    /// for interrupt-safe cleanup.
    CreateTempFile { dir: String },
    /// Ask the daemon for the host platform.
    QueryPlatform,
    /// Run the registry client with these arguments.
    RunPull { args: Vec<String> },
    /// Load this archive into the daemon.
    RunLoad { archive_path: String },
    /// The fetch is over; release the temporary file if one was registered.
    Finish { ok: bool },
}

/// Which events a state accepts from the driver.
pub open spec fn spec_sdk_expects(state: SdkFetchState, event: SdkFetchEvent) -> bool {
    match state {
        SdkFetchState::CheckingCache => event is CacheChecked,
        SdkFetchState::CreatingTempFile => event is TempFileCreated,
        SdkFetchState::QueryingPlatform { .. } => event is PlatformKnown,
        SdkFetchState::Pulling { .. } => event is CommandExited,
        SdkFetchState::Loading { .. } => event is CommandExited,
        SdkFetchState::Done { .. } => false,
        SdkFetchState::Failed => false,
    }
}

/// The transition relation of one SDK fetch: given the state before the
/// event, the image URI and the archive directory, it fixes the state after
/// the event and the action handed to the driver. A cached image finishes
/// without any pull; the pull command is exactly
/// `pull <uri> <temp file> --platform <host platform>`; the archive is
/// loaded only after a successful pull; a failed pull or load abandons the
/// fetch.
pub open spec fn spec_sdk_transition(
    pre: SdkFetchState,
    uri: Seq<char>,
    dir: Seq<char>,
    event: SdkFetchEvent,
    post: SdkFetchState,
    action: SdkAction,
) -> bool {
    match (pre, event) {
        (SdkFetchState::CheckingCache, SdkFetchEvent::CacheChecked { cached }) => {
            if cached {
                &&& post matches SdkFetchState::Done { fetched } && !fetched
                &&& action matches SdkAction::Finish { ok } && ok
            } else {
                &&& post is CreatingTempFile
                &&& action matches SdkAction::CreateTempFile { dir: d } && d@ == dir
            }
        },
        (SdkFetchState::CreatingTempFile, SdkFetchEvent::TempFileCreated { path }) => {
            &&& post matches SdkFetchState::QueryingPlatform { temp_path } && temp_path@ == path@
            &&& action is QueryPlatform
        },
        (
            SdkFetchState::QueryingPlatform { temp_path },
            SdkFetchEvent::PlatformKnown { platform },
        ) => {
            &&& post matches SdkFetchState::Pulling { temp_path: t, platform: p } && t@
                == temp_path@ && p@ == platform@
            &&& action matches SdkAction::RunPull { args } && args.deep_view() == seq![
                "pull"@,
                uri,
                temp_path@,
                "--platform"@,
                platform@,
            ]
        },
        (SdkFetchState::Pulling { temp_path, .. }, SdkFetchEvent::CommandExited { success }) => {
            if success {
                &&& post matches SdkFetchState::Loading { temp_path: t } && t@ == temp_path@
                &&& action matches SdkAction::RunLoad { archive_path } && archive_path@
                    == temp_path@
            } else {
                &&& post is Failed
                &&& action matches SdkAction::Finish { ok } && !ok
            }
        },
        (SdkFetchState::Loading { .. }, SdkFetchEvent::CommandExited { success }) => {
            if success {
                &&& post matches SdkFetchState::Done { fetched } && fetched
                &&& action matches SdkAction::Finish { ok } && ok
            } else {
                &&& post is Failed
                &&& action matches SdkAction::Finish { ok } && !ok
            }
        },
        _ => false,
    }
}

/// One SDK fetch: ensures the project's SDK image is cached by the daemon,
/// pulling it for the host platform only when it is not cached yet.
#[derive(Debug)]
pub struct SdkFetch {
    /// The URI the project pulls the SDK from.
    pub uri: String,
    /// The directory temporary archives are created under.
    pub archive_dir: String,
    pub state: SdkFetchState,
}

impl SdkFetch {
    /// Begins a fetch of the resolved SDK image: the URI pulled is the
    /// image URI the project will use for it.
    pub fn new(sdk_image: &ProjectImage, archive_dir: String) -> (r: SdkFetch)
        ensures
            r.uri@ == spec_uri_text(spec_project_image_uri(*sdk_image)),
            r.archive_dir@ == archive_dir@,
            r.state is CheckingCache,
    {
        SdkFetch {
            uri: sdk_image.project_image_uri().uri(),
            archive_dir,
            state: SdkFetchState::CheckingCache,
        }
    }

    /// The first thing the driver does: ask the daemon whether the image is
    /// cached.
    pub fn start(&self) -> (action: SdkAction)
        requires
            self.state is CheckingCache,
        ensures
            action matches SdkAction::CheckCache { uri } && uri@ == self.uri@,
    {
        SdkAction::CheckCache { uri: self.uri.clone() }
    }

    /// Advances the fetch on the outcome the driver reports, handing back
    /// the next action to perform.
    pub fn step(&mut self, event: SdkFetchEvent) -> (action: SdkAction)
        requires
            spec_sdk_expects(old(self).state, event),
        ensures
            spec_sdk_transition(
                old(self).state,
                old(self).uri@,
                old(self).archive_dir@,
                event,
                final(self).state,
                action,
            ),
            final(self).uri == old(self).uri,
            final(self).archive_dir == old(self).archive_dir,
    {
        let mut state = SdkFetchState::Failed;
        core::mem::swap(&mut state, &mut self.state);
        match (state, event) {
            (SdkFetchState::CheckingCache, SdkFetchEvent::CacheChecked { cached }) => {
                if cached {
                    self.state = SdkFetchState::Done { fetched: false };
                    SdkAction::Finish { ok: true }
                } else {
                    self.state = SdkFetchState::CreatingTempFile;
                    SdkAction::CreateTempFile { dir: self.archive_dir.clone() }
                }
            },
            (SdkFetchState::CreatingTempFile, SdkFetchEvent::TempFileCreated { path }) => {
                self.state = SdkFetchState::QueryingPlatform { temp_path: path };
                SdkAction::QueryPlatform
            },
            (
                SdkFetchState::QueryingPlatform { temp_path },
                SdkFetchEvent::PlatformKnown { platform },
            ) => {
                let mut args: Vec<String> = Vec::new();
                crate::text::push_deep(&mut args, "pull".to_owned());
                crate::text::push_deep(&mut args, self.uri.clone());
                crate::text::push_deep(&mut args, temp_path.clone());
                crate::text::push_deep(&mut args, "--platform".to_owned());
                crate::text::push_deep(&mut args, platform.clone());
                proof {
                    assert(args.deep_view() =~= seq![
                        "pull"@,
                        old(self).uri@,
                        temp_path@,
                        "--platform"@,
                        platform@,
                    ]);
                }
                self.state = SdkFetchState::Pulling { temp_path, platform };
                SdkAction::RunPull { args }
            },
            (SdkFetchState::Pulling { temp_path, .. }, SdkFetchEvent::CommandExited { success }) => {
                if success {
                    let archive_path = temp_path.clone();
                    self.state = SdkFetchState::Loading { temp_path };
                    SdkAction::RunLoad { archive_path }
                } else {
                    self.state = SdkFetchState::Failed;
                    SdkAction::Finish { ok: false }
                }
            },
            (SdkFetchState::Loading { .. }, SdkFetchEvent::CommandExited { success }) => {
                if success {
                    self.state = SdkFetchState::Done { fetched: true };
                    SdkAction::Finish { ok: true }
                } else {
                    self.state = SdkFetchState::Failed;
                    SdkAction::Finish { ok: false }
                }
            },
            (_, _) => unreached(),
        }
    }
}

} // verus!
