//! Download execution: one call of a download as a state machine. The machine
//! decides; the host does the work. Each state but the last ones waits for
//! the answer to one action, and the answer decides the next state. Nothing
//! outside the staging directory is touched before the tool has succeeded,
//! and the alias of the download root is never named to the host at all.
//!
//! A call knows nothing of other calls. Two downloads of the same link that
//! run at once may both come to the commit and write to the same place: the
//! host has to keep them apart.

use vstd::prelude::*;
use ustr::Ustr;
use crate::data::TranscriptionLink;
use crate::error::TranscriptionDownloaderError;
use crate::path::{path_under, spec_path_under, AssetPath, AssetPathView};
use crate::prerequisites::spec_check_prerequisites;
use crate::tool::{
    fetch_invocation, probe_invocation, spec_fetch_invocation, spec_probe_invocation,
    spec_staged_file_name, staged_file_name, ToolInvocation, ToolInvocationView, ToolOutcome,
};
use crate::transcription_downloader::LocalTranscriptionDownloader;

verus! {

/// What one call of a download was asked to do.
#[derive(Clone, Debug, PartialEq, Eq)]
pub struct DownloadRequest {
    /// The exercise whose asset is wanted.
    pub exercise_id: Ustr,
    /// Whether to fetch the asset even if a copy is there already.
    pub force_download: bool,
    /// The link of the exercise, if it has one.
    pub link: Option<TranscriptionLink>,
    /// The download root, if one is configured.
    pub download_path: Option<String>,
}

/// Why a download ended without fetching anything.
#[derive(Clone, Copy, Debug, PartialEq, Eq)]
pub enum SkipReason {
    /// The exercise has no link: there is nothing to fetch.
    NoLink,
    /// The asset is there already and no new copy was asked for.
    AlreadyPresent,
}

/// Where one call of a download stands.
#[derive(Debug, PartialEq, Eq)]
pub enum DownloadState {
    /// Nothing has been asked yet.
    NotRequested,
    /// Waiting to learn whether the asset is there already.
    CheckingAsset,
    /// Waiting for the facts that the prerequisites are judged on.
    Validating,
    /// Waiting for a staging directory.
    Staging,
    /// Waiting for the tool to finish.
    Downloading,
    /// Waiting for the staged file to be put in its final place.
    Committing,
    /// Waiting for the staging directory to be discarded; the result of the
    /// call is settled.
    Releasing { result: Result<(), TranscriptionDownloaderError> },
    /// Ended well without fetching.
    Skipped(SkipReason),
    /// Ended well: the asset was fetched and put in place.
    Succeeded,
    /// Ended with an error.
    Failed(TranscriptionDownloaderError),
}

/// What the host reports to the machine.
#[derive(Clone, Debug, PartialEq, Eq)]
pub enum DownloadEvent {
    /// A download is asked for.
    Requested,
    /// Whether the asset exists at its final place.
    AssetChecked { exists: bool },
    /// What came of the probe of the tool, and whether the download root
    /// exists.
    PrerequisitesChecked { probe: ToolOutcome, root_exists: bool },
    /// Whether a staging directory could be had.
    StagingAcquired { acquired: bool },
    /// What came of the run of the tool.
    ToolFinished { outcome: ToolOutcome },
    /// Whether the staged file was put in its final place.
    Committed { success: bool },
    /// The staging directory is gone.
    StagingDiscarded,
}

/// What the machine asks the host to do.
#[derive(Clone, Debug, PartialEq, Eq)]
pub enum DownloadAction {
    /// Look whether a file exists at `path`, and answer with
    /// [`DownloadEvent::AssetChecked`].
    CheckAsset { path: AssetPath },
    /// Run `probe`, look whether the directory `root` exists, and answer with
    /// [`DownloadEvent::PrerequisitesChecked`].
    CheckPrerequisites { probe: ToolInvocation, root: String },
    /// Create a directory private to this call, and answer with
    /// [`DownloadEvent::StagingAcquired`].
    AcquireStaging,
    /// Run `invocation` once, and answer with [`DownloadEvent::ToolFinished`].
    RunTool { invocation: ToolInvocation },
    /// Create the directories above `destination` as needed, copy the file
    /// named `staged_file` in the staging directory over `destination`, and
    /// answer with [`DownloadEvent::Committed`].
    Commit { staged_file: String, destination: AssetPath },
    /// Remove the staging directory with all that is in it, and answer with
    /// [`DownloadEvent::StagingDiscarded`].
    DiscardStaging,
    /// Nothing: the call is over, or was not begun.
    Stop,
}

/// What a [`DownloadAction`] holds, as text.
pub enum DownloadActionView {
    CheckAsset { path: AssetPathView },
    CheckPrerequisites { probe: ToolInvocationView, root: Seq<char> },
    AcquireStaging,
    RunTool { invocation: ToolInvocationView },
    Commit { staged_file: Seq<char>, destination: AssetPathView },
    DiscardStaging,
    Stop,
}

impl View for DownloadAction {
    type V = DownloadActionView;

    open spec fn view(&self) -> DownloadActionView {
        match self {
            DownloadAction::CheckAsset { path } => DownloadActionView::CheckAsset { path: path@ },
            DownloadAction::CheckPrerequisites { probe, root } => {
                DownloadActionView::CheckPrerequisites { probe: probe@, root: root@ }
            },
            DownloadAction::AcquireStaging => DownloadActionView::AcquireStaging,
            DownloadAction::RunTool { invocation } => DownloadActionView::RunTool {
                invocation: invocation@,
            },
            DownloadAction::Commit { staged_file, destination } => DownloadActionView::Commit {
                staged_file: staged_file@,
                destination: destination@,
            },
            DownloadAction::DiscardStaging => DownloadActionView::DiscardStaging,
            DownloadAction::Stop => DownloadActionView::Stop,
        }
    }
}

impl DownloadState {
    /// Whether the call is over.
    pub open spec fn spec_is_finished(&self) -> bool {
        self is Skipped || self is Succeeded || self is Failed
    }

    /// Whether the state waits for an answer from the host.
    pub open spec fn spec_is_waiting(&self) -> bool {
        !(self is NotRequested) && !self.spec_is_finished()
    }

    /// How the call ended, once it is over.
    pub open spec fn spec_outcome(&self) -> Option<Result<(), TranscriptionDownloaderError>> {
        match self {
            DownloadState::Skipped(_) => Some(Ok(())),
            DownloadState::Succeeded => Some(Ok(())),
            DownloadState::Failed(error) => Some(Err(*error)),
            _ => None,
        }
    }

    /// How far the call has come. No step goes back.
    pub open spec fn rank(&self) -> nat {
        match self {
            DownloadState::NotRequested => 0,
            DownloadState::CheckingAsset => 1,
            DownloadState::Validating => 2,
            DownloadState::Staging => 3,
            DownloadState::Downloading => 4,
            DownloadState::Committing => 5,
            DownloadState::Releasing { .. } => 6,
            DownloadState::Skipped(_) => 7,
            DownloadState::Succeeded => 7,
            DownloadState::Failed(_) => 7,
        }
    }

    /// Whether the call is over.
    #[verifier::when_used_as_spec(spec_is_finished)]
    pub fn is_finished(&self) -> (yes: bool)
        ensures
            yes == self.spec_is_finished(),
    {
        match self {
            DownloadState::Skipped(_) => true,
            DownloadState::Succeeded => true,
            DownloadState::Failed(_) => true,
            _ => false,
        }
    }
}

/// Whether `event` is the answer that `state` waits for.
pub open spec fn spec_expects(state: &DownloadState, event: &DownloadEvent) -> bool {
    match (state, event) {
        (DownloadState::NotRequested, DownloadEvent::Requested) => true,
        (DownloadState::CheckingAsset, DownloadEvent::AssetChecked { .. }) => true,
        (DownloadState::Validating, DownloadEvent::PrerequisitesChecked { .. }) => true,
        (DownloadState::Staging, DownloadEvent::StagingAcquired { .. }) => true,
        (DownloadState::Downloading, DownloadEvent::ToolFinished { .. }) => true,
        (DownloadState::Committing, DownloadEvent::Committed { .. }) => true,
        (DownloadState::Releasing { .. }, DownloadEvent::StagingDiscarded) => true,
        _ => false,
    }
}

/// A request and a state fit together if every state that waits for the host
/// has a link and a root to work with.
pub open spec fn spec_fits(request: &DownloadRequest, state: &DownloadState) -> bool {
    state.spec_is_waiting() ==> request.link is Some && request.download_path is Some
}

/// The transition rule. An event that is not the answer the state waits for
/// changes nothing.
pub open spec fn spec_next_state(
    request: &DownloadRequest,
    state: DownloadState,
    event: DownloadEvent,
) -> DownloadState {
    match (state, event) {
        (DownloadState::NotRequested, DownloadEvent::Requested) => {
            if request.link is None {
                DownloadState::Skipped(SkipReason::NoLink)
            } else if request.download_path is None {
                DownloadState::Failed(TranscriptionDownloaderError::RootNotConfigured)
            } else {
                DownloadState::CheckingAsset
            }
        },
        (DownloadState::CheckingAsset, DownloadEvent::AssetChecked { exists }) => {
            if exists && !request.force_download {
                DownloadState::Skipped(SkipReason::AlreadyPresent)
            } else {
                DownloadState::Validating
            }
        },
        (DownloadState::Validating, DownloadEvent::PrerequisitesChecked { probe, root_exists }) => {
            match spec_check_prerequisites(&request.download_path, &probe, root_exists) {
                Ok(_) => DownloadState::Staging,
                Err(error) => DownloadState::Failed(error),
            }
        },
        (DownloadState::Staging, DownloadEvent::StagingAcquired { acquired }) => {
            if acquired {
                DownloadState::Downloading
            } else {
                DownloadState::Failed(TranscriptionDownloaderError::FilesystemError)
            }
        },
        (DownloadState::Downloading, DownloadEvent::ToolFinished { outcome }) => {
            if outcome.spec_succeeded() {
                DownloadState::Committing
            } else {
                DownloadState::Releasing {
                    result: Err(
                        TranscriptionDownloaderError::DownloadFailed {
                            exercise_id: request.exercise_id,
                            diagnostic: outcome.spec_diagnostic(),
                        },
                    ),
                }
            }
        },
        (DownloadState::Committing, DownloadEvent::Committed { success }) => {
            if success {
                DownloadState::Releasing { result: Ok(()) }
            } else {
                DownloadState::Releasing {
                    result: Err(TranscriptionDownloaderError::FilesystemError),
                }
            }
        },
        (DownloadState::Releasing { result }, DownloadEvent::StagingDiscarded) => {
            match result {
                Ok(_) => DownloadState::Succeeded,
                Err(error) => DownloadState::Failed(error),
            }
        },
        (state, _) => state,
    }
}

/// The action that a state waits for the answer to. It is made from the
/// request alone: the asset's place is the one that the link resolves to
/// under the download root, and the invocations are those of the link's
/// provider.
pub open spec fn spec_pending_action(
    request: &DownloadRequest,
    state: &DownloadState,
) -> DownloadActionView {
    if !state.spec_is_waiting() || !spec_fits(request, state) {
        DownloadActionView::Stop
    } else {
        let link = request.link->0;
        let destination = spec_path_under(request.download_path, &link)->0;
        match state {
            DownloadState::CheckingAsset => DownloadActionView::CheckAsset { path: destination },
            DownloadState::Validating => DownloadActionView::CheckPrerequisites {
                probe: spec_probe_invocation(&link),
                root: request.download_path->0@,
            },
            DownloadState::Staging => DownloadActionView::AcquireStaging,
            DownloadState::Downloading => DownloadActionView::RunTool {
                invocation: spec_fetch_invocation(&link),
            },
            DownloadState::Committing => DownloadActionView::Commit {
                staged_file: spec_staged_file_name(&link),
                destination,
            },
            _ => DownloadActionView::DiscardStaging,
        }
    }
}

/// One call of a download, under way or over.
pub struct Download {
    request: DownloadRequest,
    state: DownloadState,
}

impl Download {
    #[verifier::type_invariant]
    spec fn fits(&self) -> bool {
        spec_fits(&self.request, &self.state)
    }

    /// What the call was asked to do. It stays the same throughout.
    pub closed spec fn request(&self) -> DownloadRequest {
        self.request
    }

    /// Where the call stands.
    pub closed spec fn state(&self) -> DownloadState {
        self.state
    }

    /// A call that has not been requested yet.
    pub fn new(request: DownloadRequest) -> (download: Download)
        ensures
            download.request() == request,
            download.state() == DownloadState::NotRequested,
    {
        Download { request, state: DownloadState::NotRequested }
    }

    /// Where the call stands.
    pub fn current_state(&self) -> (state: &DownloadState)
        ensures
            *state == self.state(),
    {
        &self.state
    }

    /// Whether `event` is the answer that the call waits for.
    pub fn expects(&self, event: &DownloadEvent) -> (yes: bool)
        ensures
            yes == spec_expects(&self.state(), event),
    {
        match (&self.state, event) {
            (DownloadState::NotRequested, DownloadEvent::Requested) => true,
            (DownloadState::CheckingAsset, DownloadEvent::AssetChecked { .. }) => true,
            (DownloadState::Validating, DownloadEvent::PrerequisitesChecked { .. }) => true,
            (DownloadState::Staging, DownloadEvent::StagingAcquired { .. }) => true,
            (DownloadState::Downloading, DownloadEvent::ToolFinished { .. }) => true,
            (DownloadState::Committing, DownloadEvent::Committed { .. }) => true,
            (DownloadState::Releasing { .. }, DownloadEvent::StagingDiscarded) => true,
            _ => false,
        }
    }

    /// How the call ended: nothing while it is under way.
    pub fn outcome(self) -> (outcome: Option<Result<(), TranscriptionDownloaderError>>)
        ensures
            outcome == self.state().spec_outcome(),
    {
        match self.state {
            DownloadState::Skipped(_) => Some(Ok(())),
            DownloadState::Succeeded => Some(Ok(())),
            DownloadState::Failed(error) => Some(Err(error)),
            _ => None,
        }
    }

    /// The action that the call waits for the answer to.
    pub fn pending_action(&self) -> (action: DownloadAction)
        ensures
            action@ == spec_pending_action(&self.request(), &self.state()),
    {
        proof {
            use_type_invariant(self);
        }
        match (&self.state, &self.request.link) {
            (DownloadState::CheckingAsset, Some(link)) => {
                match path_under(&self.request.download_path, link) {
                    Some(path) => DownloadAction::CheckAsset { path },
                    None => DownloadAction::Stop,
                }
            },
            (DownloadState::Validating, Some(link)) => {
                match &self.request.download_path {
                    Some(root) => DownloadAction::CheckPrerequisites {
                        probe: probe_invocation(link),
                        root: root.clone(),
                    },
                    None => DownloadAction::Stop,
                }
            },
            (DownloadState::Staging, Some(_)) => DownloadAction::AcquireStaging,
            (DownloadState::Downloading, Some(link)) => DownloadAction::RunTool {
                invocation: fetch_invocation(link),
            },
            (DownloadState::Committing, Some(link)) => {
                match path_under(&self.request.download_path, link) {
                    Some(destination) => DownloadAction::Commit {
                        staged_file: staged_file_name(link),
                        destination,
                    },
                    None => DownloadAction::Stop,
                }
            },
            (DownloadState::Releasing { .. }, Some(_)) => DownloadAction::DiscardStaging,
            _ => DownloadAction::Stop,
        }
    }

    /// Takes the host's report and moves on: returns the call in its next
    /// state, with the action that it now waits for the answer to. An event
    /// that is not the answer awaited leaves the call as it is.
    pub fn step(self, event: DownloadEvent) -> (next: (Download, DownloadAction))
        ensures
            next.0.request() == self.request(),
            next.0.state() == spec_next_state(&self.request(), self.state(), event),
            next.1@ == spec_pending_action(&next.0.request(), &next.0.state()),
    {
        proof {
            use_type_invariant(&self);
        }
        let Download { request, state } = self;
        let state = match (state, event) {
            (DownloadState::NotRequested, DownloadEvent::Requested) => {
                if request.link.is_none() {
                    DownloadState::Skipped(SkipReason::NoLink)
                } else if request.download_path.is_none() {
                    DownloadState::Failed(TranscriptionDownloaderError::RootNotConfigured)
                } else {
                    DownloadState::CheckingAsset
                }
            },
            (DownloadState::CheckingAsset, DownloadEvent::AssetChecked { exists }) => {
                if exists && !request.force_download {
                    DownloadState::Skipped(SkipReason::AlreadyPresent)
                } else {
                    DownloadState::Validating
                }
            },
            (
                DownloadState::Validating,
                DownloadEvent::PrerequisitesChecked { probe, root_exists },
            ) => {
                match LocalTranscriptionDownloader::check_prerequisites(
                    &request.download_path,
                    &probe,
                    root_exists,
                ) {
                    Ok(()) => DownloadState::Staging,
                    Err(error) => DownloadState::Failed(error),
                }
            },
            (DownloadState::Staging, DownloadEvent::StagingAcquired { acquired }) => {
                if acquired {
                    DownloadState::Downloading
                } else {
                    DownloadState::Failed(TranscriptionDownloaderError::FilesystemError)
                }
            },
            (DownloadState::Downloading, DownloadEvent::ToolFinished { outcome }) => {
                if outcome.succeeded() {
                    DownloadState::Committing
                } else {
                    DownloadState::Releasing {
                        result: Err(
                            TranscriptionDownloaderError::DownloadFailed {
                                exercise_id: request.exercise_id,
                                diagnostic: outcome.into_diagnostic(),
                            },
                        ),
                    }
                }
            },
            (DownloadState::Committing, DownloadEvent::Committed { success }) => {
                if success {
                    DownloadState::Releasing { result: Ok(()) }
                } else {
                    DownloadState::Releasing {
                        result: Err(TranscriptionDownloaderError::FilesystemError),
                    }
                }
            },
            (DownloadState::Releasing { result }, DownloadEvent::StagingDiscarded) => {
                match result {
                    Ok(()) => DownloadState::Succeeded,
                    Err(error) => DownloadState::Failed(error),
                }
            },
            (state, _) => state,
        };
        let download = Download { request, state };
        let action = download.pending_action();
        (download, action)
    }
}

} // verus!
