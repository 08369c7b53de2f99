use ustr::Ustr;

use trane_cli::data::TranscriptionLink;
use trane_cli::download::{
    Download, DownloadAction, DownloadEvent, DownloadRequest, DownloadState, SkipReason,
};
use trane_cli::error::TranscriptionDownloaderError;
use trane_cli::path::{AssetPath, RelativePath};
use trane_cli::tool::{
    fetch_invocation, probe_invocation, staged_file_name, ToolArgument, ToolInvocation,
    ToolOutcome,
};
use trane_cli::transcription_downloader::LocalTranscriptionDownloader;

const LINK: &str = "hello world";
const DIR: &str = "2aae6c35c94fcfb415dbe95f408b9ce91ee846ed";

fn request(link: Option<&str>, root: Option<&str>, force_download: bool) -> DownloadRequest {
    DownloadRequest {
        exercise_id: Ustr::from("exercise"),
        force_download,
        link: link.map(|url| TranscriptionLink::YouTube(url.to_string())),
        download_path: root.map(str::to_string),
    }
}

fn destination() -> AssetPath {
    AssetPath {
        root: "/music".to_string(),
        relative: RelativePath { directory: DIR.to_string(), file_name: "audio.m4a".to_string() },
    }
}

fn text(argument: &str) -> ToolArgument {
    ToolArgument::Text(argument.to_string())
}

fn probe() -> ToolInvocation {
    ToolInvocation {
        program: "yt-dlp".to_string(),
        arguments: vec![text("--version")],
        capture_diagnostics: false,
    }
}

fn fetch() -> ToolInvocation {
    ToolInvocation {
        program: "yt-dlp".to_string(),
        arguments: vec![
            text("--enable-file-urls"),
            text("--extract-audio"),
            text("--audio-format"),
            text("m4a"),
            text("--output"),
            ToolArgument::StagedFile("audio.m4a".to_string()),
            text(LINK),
        ],
        capture_diagnostics: true,
    }
}

fn exited(success: bool, diagnostic: &str) -> ToolOutcome {
    ToolOutcome::Exited { success, diagnostic: diagnostic.to_string() }
}

fn good_prerequisites() -> DownloadEvent {
    DownloadEvent::PrerequisitesChecked { probe: exited(true, ""), root_exists: true }
}

/// Feeds the reports to a new call and returns it with the last action.
fn run(request: DownloadRequest, events: Vec<DownloadEvent>) -> (Download, DownloadAction) {
    let mut call = Download::new(request);
    let mut action = call.pending_action();
    for event in events {
        let next = call.step(event);
        call = next.0;
        action = next.1;
    }
    (call, action)
}

fn outcome_after(
    request: DownloadRequest,
    events: Vec<DownloadEvent>,
) -> Option<Result<(), TranscriptionDownloaderError>> {
    run(request, events).0.outcome()
}

#[test]
fn new_call_is_not_requested() {
    let call = Download::new(request(Some(LINK), Some("/music"), false));
    assert_eq!(*call.current_state(), DownloadState::NotRequested);
    assert_eq!(call.pending_action(), DownloadAction::Stop);
    assert!(call.expects(&DownloadEvent::Requested));
    assert!(!call.expects(&DownloadEvent::AssetChecked { exists: true }));
    assert!(!call.current_state().is_finished());
    assert_eq!(call.outcome(), None);
}

#[test]
fn smooth_download_asks_for_each_action_once() {
    let mut call = Download::new(request(Some(LINK), Some("/music"), false));
    let mut actions = vec![];
    let events = vec![
        DownloadEvent::Requested,
        DownloadEvent::AssetChecked { exists: false },
        good_prerequisites(),
        DownloadEvent::StagingAcquired { acquired: true },
        DownloadEvent::ToolFinished { outcome: exited(true, "warning: slow") },
        DownloadEvent::Committed { success: true },
        DownloadEvent::StagingDiscarded,
    ];
    let mut states = vec![];
    for event in events {
        assert!(call.expects(&event));
        let next = call.step(event);
        call = next.0;
        assert_eq!(next.1, call.pending_action());
        actions.push(next.1);
        states.push(format!("{:?}", call.current_state()));
    }
    assert_eq!(
        actions,
        vec![
            DownloadAction::CheckAsset { path: destination() },
            DownloadAction::CheckPrerequisites { probe: probe(), root: "/music".to_string() },
            DownloadAction::AcquireStaging,
            DownloadAction::RunTool { invocation: fetch() },
            DownloadAction::Commit {
                staged_file: "audio.m4a".to_string(),
                destination: destination(),
            },
            DownloadAction::DiscardStaging,
            DownloadAction::Stop,
        ]
    );
    assert_eq!(
        states,
        vec![
            "CheckingAsset",
            "Validating",
            "Staging",
            "Downloading",
            "Committing",
            "Releasing { result: Ok(()) }",
            "Succeeded",
        ]
    );
    assert!(call.current_state().is_finished());
    assert_eq!(call.outcome(), Some(Ok(())));
}

#[test]
fn present_asset_is_skipped_unless_forced() {
    let events = || vec![DownloadEvent::Requested, DownloadEvent::AssetChecked { exists: true }];
    let (kept, action) = run(request(Some(LINK), Some("/music"), false), events());
    assert_eq!(*kept.current_state(), DownloadState::Skipped(SkipReason::AlreadyPresent));
    assert_eq!(action, DownloadAction::Stop);
    assert_eq!(kept.outcome(), Some(Ok(())));

    let (forced, action) = run(request(Some(LINK), Some("/music"), true), events());
    assert_eq!(*forced.current_state(), DownloadState::Validating);
    assert_eq!(
        action,
        DownloadAction::CheckPrerequisites { probe: probe(), root: "/music".to_string() }
    );

    let missing = vec![DownloadEvent::Requested, DownloadEvent::AssetChecked { exists: false }];
    let (absent, _) = run(request(Some(LINK), Some("/music"), false), missing);
    assert_eq!(*absent.current_state(), DownloadState::Validating);
}

#[test]
fn request_without_link_or_root_ends_at_once() {
    for force in [false, true] {
        for root in [None, Some("/music")] {
            let (call, action) = run(request(None, root, force), vec![DownloadEvent::Requested]);
            assert_eq!(*call.current_state(), DownloadState::Skipped(SkipReason::NoLink));
            assert_eq!(action, DownloadAction::Stop);
            assert_eq!(call.outcome(), Some(Ok(())));
        }
        let (call, action) = run(request(Some(LINK), None, force), vec![DownloadEvent::Requested]);
        assert_eq!(
            *call.current_state(),
            DownloadState::Failed(TranscriptionDownloaderError::RootNotConfigured)
        );
        assert_eq!(action, DownloadAction::Stop);
        assert_eq!(call.outcome(), Some(Err(TranscriptionDownloaderError::RootNotConfigured)));
    }
}

#[test]
fn prerequisites_are_judged_tool_first() {
    let check = |probe: ToolOutcome, root_exists: bool| {
        outcome_after(
            request(Some(LINK), Some("/music"), false),
            vec![
                DownloadEvent::Requested,
                DownloadEvent::AssetChecked { exists: false },
                DownloadEvent::PrerequisitesChecked { probe, root_exists },
            ],
        )
    };
    let unavailable = Some(Err(TranscriptionDownloaderError::ToolUnavailable));
    assert_eq!(check(exited(false, ""), true), unavailable);
    assert_eq!(check(exited(false, ""), false), unavailable);
    let not_started = ToolOutcome::NotStarted { reason: "not found".to_string() };
    assert_eq!(check(not_started, true), unavailable);
    let missing = Some(Err(TranscriptionDownloaderError::RootMissing));
    assert_eq!(check(exited(true, ""), false), missing);
    // With both in order the call goes on: it is not over.
    assert_eq!(check(exited(true, ""), true), None);
}

#[test]
fn staging_failure_is_a_filesystem_error() {
    let (call, action) = run(
        request(Some(LINK), Some("/music"), false),
        vec![
            DownloadEvent::Requested,
            DownloadEvent::AssetChecked { exists: false },
            good_prerequisites(),
            DownloadEvent::StagingAcquired { acquired: false },
        ],
    );
    // There is no staging directory to discard.
    assert_eq!(action, DownloadAction::Stop);
    assert_eq!(call.outcome(), Some(Err(TranscriptionDownloaderError::FilesystemError)));
}

#[test]
fn failed_tool_is_reported_after_staging_is_discarded() {
    for outcome in [
        exited(false, "ERROR: Video unavailable"),
        ToolOutcome::NotStarted { reason: "ERROR: Video unavailable".to_string() },
    ] {
        let (call, action) = run(
            request(Some(LINK), Some("/music"), true),
            vec![
                DownloadEvent::Requested,
                DownloadEvent::AssetChecked { exists: true },
                good_prerequisites(),
                DownloadEvent::StagingAcquired { acquired: true },
                DownloadEvent::ToolFinished { outcome },
            ],
        );
        let error = TranscriptionDownloaderError::DownloadFailed {
            exercise_id: Ustr::from("exercise"),
            diagnostic: "ERROR: Video unavailable".to_string(),
        };
        assert_eq!(action, DownloadAction::DiscardStaging);
        assert!(!call.current_state().is_finished());
        let (call, action) = call.step(DownloadEvent::StagingDiscarded);
        assert_eq!(action, DownloadAction::Stop);
        assert_eq!(call.outcome(), Some(Err(error)));
    }
}

#[test]
fn failed_commit_is_a_filesystem_error() {
    let (call, action) = run(
        request(Some(LINK), Some("/music"), false),
        vec![
            DownloadEvent::Requested,
            DownloadEvent::AssetChecked { exists: false },
            good_prerequisites(),
            DownloadEvent::StagingAcquired { acquired: true },
            DownloadEvent::ToolFinished { outcome: exited(true, "") },
            DownloadEvent::Committed { success: false },
        ],
    );
    assert_eq!(action, DownloadAction::DiscardStaging);
    assert_eq!(
        *call.current_state(),
        DownloadState::Releasing { result: Err(TranscriptionDownloaderError::FilesystemError) }
    );
    let (call, _) = call.step(DownloadEvent::StagingDiscarded);
    assert_eq!(call.outcome(), Some(Err(TranscriptionDownloaderError::FilesystemError)));
}

#[test]
fn stray_report_changes_nothing() {
    let all = || {
        vec![
            DownloadEvent::Requested,
            DownloadEvent::AssetChecked { exists: true },
            DownloadEvent::AssetChecked { exists: false },
            good_prerequisites(),
            DownloadEvent::StagingAcquired { acquired: true },
            DownloadEvent::ToolFinished { outcome: exited(true, "") },
            DownloadEvent::Committed { success: true },
            DownloadEvent::StagingDiscarded,
        ]
    };
    let prefixes = vec![
        vec![],
        vec![DownloadEvent::Requested],
        vec![DownloadEvent::Requested, DownloadEvent::AssetChecked { exists: false }],
        vec![
            DownloadEvent::Requested,
            DownloadEvent::AssetChecked { exists: false },
            good_prerequisites(),
        ],
        vec![DownloadEvent::Requested, DownloadEvent::AssetChecked { exists: true }],
    ];
    for prefix in prefixes {
        for stray in all() {
            let (call, action) = run(request(Some(LINK), Some("/music"), false), prefix.clone());
            if call.expects(&stray) {
                continue;
            }
            let before = format!("{:?}", call.current_state());
            let (after, again) = call.step(stray);
            assert_eq!(format!("{:?}", after.current_state()), before);
            assert_eq!(again, action);
        }
    }
}

#[test]
fn tool_invocations_follow_the_template() {
    let link = TranscriptionLink::YouTube(LINK.to_string());
    assert_eq!(probe_invocation(&link), probe());
    assert_eq!(fetch_invocation(&link), fetch());
    assert_eq!(staged_file_name(&link), "audio.m4a");
    assert_eq!(
        staged_file_name(&link),
        LocalTranscriptionDownloader::download_file_name(&link)
    );
}

#[test]
fn tool_outcome_succeeds_only_with_exit_zero() {
    assert!(exited(true, "noise").succeeded());
    assert!(!exited(false, "").succeeded());
    assert!(!ToolOutcome::NotStarted { reason: String::new() }.succeeded());
    assert_eq!(exited(false, "boom").into_diagnostic(), "boom");
    assert_eq!(ToolOutcome::NotStarted { reason: "gone".to_string() }.into_diagnostic(), "gone");
}

#[test]
fn prerequisites_verdicts() {
    let root = Some("/music".to_string());
    let ok = exited(true, "");
    let bad = exited(false, "");
    assert_eq!(LocalTranscriptionDownloader::verify_binary(&ok), Ok(()));
    assert_eq!(
        LocalTranscriptionDownloader::verify_binary(&bad),
        Err(TranscriptionDownloaderError::ToolUnavailable)
    );
    assert_eq!(
        LocalTranscriptionDownloader::verify_binary(&ToolOutcome::NotStarted {
            reason: String::new()
        }),
        Err(TranscriptionDownloaderError::ToolUnavailable)
    );
    assert_eq!(LocalTranscriptionDownloader::check_prerequisites(&root, &ok, true), Ok(()));
    assert_eq!(
        LocalTranscriptionDownloader::check_prerequisites(&root, &ok, false),
        Err(TranscriptionDownloaderError::RootMissing)
    );
    assert_eq!(
        LocalTranscriptionDownloader::check_prerequisites(&None, &ok, true),
        Err(TranscriptionDownloaderError::RootNotConfigured)
    );
    assert_eq!(
        LocalTranscriptionDownloader::check_prerequisites(&None, &ok, false),
        Err(TranscriptionDownloaderError::RootNotConfigured)
    );
    for root in [None, root] {
        for exists in [false, true] {
            assert_eq!(
                LocalTranscriptionDownloader::check_prerequisites(&root, &bad, exists),
                Err(TranscriptionDownloaderError::ToolUnavailable)
            );
        }
    }
}

#[test]
fn errors_say_what_went_wrong() {
    assert_eq!(
        TranscriptionDownloaderError::ToolUnavailable.message(),
        "the download tool cannot be run"
    );
    assert_eq!(
        TranscriptionDownloaderError::RootNotConfigured.message(),
        "transcription download path is not set"
    );
    assert_eq!(
        TranscriptionDownloaderError::RootMissing.message(),
        "transcription download path does not exist"
    );
    assert_eq!(
        TranscriptionDownloaderError::FilesystemError.message(),
        "cannot put the downloaded asset in its place"
    );
    assert_eq!(
        TranscriptionDownloaderError::DownloadFailed {
            exercise_id: Ustr::from("course::lesson::exercise"),
            diagnostic: "ERROR: Video unavailable".to_string(),
        }
        .message(),
        "cannot download asset for exercise course::lesson::exercise: ERROR: Video unavailable"
    );
}
