//! Whole runs of a download: what holds of every sequence of reports that a
//! host can make, and of every orderly one, in which each report answers the
//! action that was pending.

use vstd::prelude::*;
use crate::download::{
    spec_expects, spec_fits, spec_next_state, spec_pending_action, DownloadActionView,
    DownloadEvent, DownloadRequest, DownloadState, SkipReason,
};
use crate::error::TranscriptionDownloaderError;
use crate::path::spec_path_under;
use crate::tool::{spec_fetch_invocation, spec_probe_invocation, spec_staged_file_name, ToolOutcome};

verus! {

/// The state of a call after the host has made the reports `events`, in
/// order, from the beginning.
#[verifier::opaque]
pub open spec fn spec_run(request: &DownloadRequest, events: Seq<DownloadEvent>) -> DownloadState
    decreases events.len(),
{
    if events.len() == 0 {
        DownloadState::NotRequested
    } else {
        spec_next_state(request, spec_run(request, events.drop_last()), events.last())
    }
}

/// The state of a call after the first `count` of the reports `events`.
pub open spec fn spec_state_after(
    request: &DownloadRequest,
    events: Seq<DownloadEvent>,
    count: int,
) -> DownloadState {
    spec_run(request, events.take(count))
}

/// Whether every report of a run is the answer that the call waited for when
/// the report was made.
pub open spec fn spec_orderly(request: &DownloadRequest, events: Seq<DownloadEvent>) -> bool {
    forall|i: int|
        0 <= i < events.len() ==> spec_expects(
            &#[trigger] spec_state_after(request, events, i),
            &events[i],
        )
}

/// Each report takes the run one step further: the state after `count + 1`
/// reports is the next state of the state after `count` of them.
pub proof fn lemma_run_unfolds(request: &DownloadRequest, events: Seq<DownloadEvent>, count: int)
    requires
        0 <= count < events.len(),
    ensures
        spec_state_after(request, events, count + 1) == spec_next_state(
            request,
            spec_state_after(request, events, count),
            events[count],
        ),
        spec_state_after(request, events, 0) == DownloadState::NotRequested,
        spec_state_after(request, events, events.len() as int) == spec_run(request, events),
{
    reveal_with_fuel(spec_run, 2);
    assert(events.take(count + 1).drop_last() =~= events.take(count));
    assert(events.take(events.len() as int) =~= events);
}

/// A step keeps request and state fitting together.
pub proof fn law_step_keeps_fit(
    request: &DownloadRequest,
    state: DownloadState,
    event: DownloadEvent,
)
    requires
        spec_fits(request, &state),
    ensures
        spec_fits(request, &spec_next_state(request, state, event)),
{
}

/// No step goes back. A report that answers the pending action takes the
/// call strictly further; any other report changes nothing. So a call that
/// is over stays as it is, whatever is reported.
pub proof fn law_step_never_goes_back(
    request: &DownloadRequest,
    state: DownloadState,
    event: DownloadEvent,
)
    ensures
        spec_expects(&state, &event) ==> state.rank() < spec_next_state(
            request,
            state,
            event,
        ).rank(),
        !spec_expects(&state, &event) ==> spec_next_state(request, state, event) == state,
        state.spec_is_finished() ==> spec_next_state(request, state, event) == state,
{
}

/// Every state of a run fits the request.
pub proof fn law_run_keeps_fit(request: &DownloadRequest, events: Seq<DownloadEvent>)
    ensures
        spec_fits(request, &spec_run(request, events)),
    decreases events.len(),
{
    reveal_with_fuel(spec_run, 2);
    if events.len() > 0 {
        law_run_keeps_fit(request, events.drop_last());
        law_step_keeps_fit(request, spec_run(request, events.drop_last()), events.last());
    }
}

/// In an orderly run every report takes the call further: a later state has
/// a higher rank than an earlier one. So no state is passed through twice
/// and no action is asked for twice.
pub proof fn law_orderly_run_advances(
    request: &DownloadRequest,
    events: Seq<DownloadEvent>,
    earlier: int,
    later: int,
)
    requires
        spec_orderly(request, events),
        0 <= earlier < later <= events.len(),
    ensures
        spec_state_after(request, events, earlier).rank() < spec_state_after(
            request,
            events,
            later,
        ).rank(),
    decreases later - earlier,
{
    lemma_run_unfolds(request, events, later - 1);
    law_step_never_goes_back(
        request,
        spec_state_after(request, events, later - 1),
        events[later - 1],
    );
    if earlier < later - 1 {
        law_orderly_run_advances(request, events, earlier, later - 1);
    }
}

/// An orderly run is over after seven reports at most.
pub proof fn law_orderly_run_is_short(request: &DownloadRequest, events: Seq<DownloadEvent>)
    requires
        spec_orderly(request, events),
    ensures
        events.len() <= 7,
        events.len() <= spec_run(request, events).rank(),
    decreases events.len(),
{
    if events.len() > 0 {
        let shorter = events.drop_last();
        assert forall|i: int| 0 <= i < shorter.len() implies spec_expects(
            &#[trigger] spec_state_after(request, shorter, i),
            &shorter[i],
        ) by {
            assert(shorter.take(i) =~= events.take(i));
        }
        law_orderly_run_is_short(request, shorter);
        lemma_run_unfolds(request, events, events.len() - 1);
        law_step_never_goes_back(request, spec_run(request, shorter), events.last());
    }
}

/// The tool is run at most once in an orderly run: the call waits for the
/// tool in one state only, and passes through it once at most.
pub proof fn law_tool_runs_at_most_once(
    request: &DownloadRequest,
    events: Seq<DownloadEvent>,
    earlier: int,
    later: int,
)
    requires
        spec_orderly(request, events),
        0 <= earlier < later <= events.len(),
    ensures
        !(spec_pending_action(request, &spec_state_after(request, events, earlier)) is RunTool
            && spec_pending_action(request, &spec_state_after(request, events, later)) is RunTool),
{
    law_orderly_run_advances(request, events, earlier, later);
}

/// The asset's final place is written to only after the tool has succeeded:
/// in any run, orderly or not, the call comes to wait for the commit only by
/// a report that the tool finished with success, made while the call waited
/// for the tool.
pub proof fn law_commit_follows_success(
    request: &DownloadRequest,
    events: Seq<DownloadEvent>,
    count: int,
)
    requires
        0 <= count < events.len(),
        spec_state_after(request, events, count + 1) is Committing,
        !(spec_state_after(request, events, count) is Committing),
    ensures
        spec_state_after(request, events, count) is Downloading,
        events[count] is ToolFinished,
        events[count]->outcome.spec_succeeded(),
{
    lemma_run_unfolds(request, events, count);
}

/// The commit is the only action that names the asset's final place as a
/// place to write to, and it is pending in one state only.
pub proof fn law_only_commit_writes(request: &DownloadRequest, state: DownloadState)
    ensures
        spec_pending_action(request, &state) is Commit ==> state is Committing,
{
}

/// A run in which the tool did not succeed never comes to the commit: the
/// asset's final place is left as it was. Once the staging directory is
/// discarded, the call has failed with the exercise's identifier and what the
/// tool reported.
pub proof fn law_failed_tool_leaves_asset_alone(
    request: &DownloadRequest,
    events: Seq<DownloadEvent>,
    at: int,
    count: int,
)
    requires
        spec_orderly(request, events),
        0 <= at < events.len(),
        events[at] is ToolFinished,
        !events[at]->outcome.spec_succeeded(),
        0 <= count <= events.len(),
    ensures
        !(spec_state_after(request, events, count) is Committing),
        !(spec_pending_action(request, &spec_state_after(request, events, count)) is Commit),
        spec_state_after(request, events, at + 1) == (DownloadState::Releasing {
            result: Err(
                TranscriptionDownloaderError::DownloadFailed {
                    exercise_id: request.exercise_id,
                    diagnostic: events[at]->outcome.spec_diagnostic(),
                },
            ),
        }),
        count >= at + 2 ==> spec_state_after(request, events, count) == DownloadState::Failed(
            TranscriptionDownloaderError::DownloadFailed {
                exercise_id: request.exercise_id,
                diagnostic: events[at]->outcome.spec_diagnostic(),
            },
        ),
{
    lemma_run_unfolds(request, events, at);
    if count < at {
        law_orderly_run_advances(request, events, count, at);
    } else if count > at + 1 {
        law_orderly_run_advances(request, events, at + 1, count);
        lemma_run_unfolds(request, events, at + 1);
        lemma_finished_stays(request, events, at + 2, count);
    }
}

/// Once a run is over, its state stays the same whatever is reported after.
pub proof fn lemma_finished_stays(
    request: &DownloadRequest,
    events: Seq<DownloadEvent>,
    from: int,
    to: int,
)
    requires
        0 <= from <= to <= events.len(),
        spec_state_after(request, events, from).spec_is_finished(),
    ensures
        spec_state_after(request, events, to) == spec_state_after(request, events, from),
    decreases to - from,
{
    if from < to {
        lemma_finished_stays(request, events, from, to - 1);
        lemma_run_unfolds(request, events, to - 1);
    }
}

/// The staging directory is discarded on every way out: an orderly run in
/// which a staging directory was had, and which is over, ends with the report
/// that the directory is gone.
pub proof fn law_staging_is_discarded(
    request: &DownloadRequest,
    events: Seq<DownloadEvent>,
    at: int,
)
    requires
        spec_orderly(request, events),
        0 <= at < events.len(),
        events[at] == (DownloadEvent::StagingAcquired { acquired: true }),
        spec_run(request, events).spec_is_finished(),
    ensures
        events.last() == DownloadEvent::StagingDiscarded,
        spec_state_after(request, events, events.len() - 1) is Releasing,
        spec_pending_action(request, &spec_state_after(request, events, events.len() - 1))
            is DiscardStaging,
{
    let last = events.len() - 1;
    lemma_run_unfolds(request, events, at);
    lemma_run_unfolds(request, events, last);
    if at + 1 < last {
        law_orderly_run_advances(request, events, at + 1, last);
    }
    law_run_keeps_fit(request, events.take(last));
}

/// An asset that is there is kept: where the exercise has a link, a root is
/// configured, no new copy is asked for and the asset is reported to exist,
/// the call ends well after that one report. Nothing was asked of the host
/// but to look for the asset: no process is started and nothing is written.
pub proof fn law_present_asset_is_kept(request: &DownloadRequest)
    requires
        request.link is Some,
        request.download_path is Some,
        !request.force_download,
    ensures
        spec_run(request, seq![DownloadEvent::Requested]) == DownloadState::CheckingAsset,
        spec_pending_action(request, &DownloadState::CheckingAsset) is CheckAsset,
        spec_run(
            request,
            seq![DownloadEvent::Requested, DownloadEvent::AssetChecked { exists: true }],
        ) == DownloadState::Skipped(SkipReason::AlreadyPresent),
        spec_pending_action(request, &DownloadState::Skipped(SkipReason::AlreadyPresent)) is Stop,
        DownloadState::Skipped(SkipReason::AlreadyPresent).spec_outcome() == Some(
            Ok::<(), TranscriptionDownloaderError>(()),
        ),
{
    let events = seq![DownloadEvent::Requested, DownloadEvent::AssetChecked { exists: true }];
    lemma_run_unfolds(request, events, 0);
    lemma_run_unfolds(request, events, 1);
    assert(events.take(1) =~= seq![DownloadEvent::Requested]);
}

/// An exercise without a link has nothing to fetch: the call ends well at
/// once, whatever else is configured.
pub proof fn law_no_link_is_no_work(request: &DownloadRequest)
    requires
        request.link is None,
    ensures
        spec_run(request, seq![DownloadEvent::Requested]) == DownloadState::Skipped(
            SkipReason::NoLink,
        ),
        spec_pending_action(request, &DownloadState::Skipped(SkipReason::NoLink)) is Stop,
{
    lemma_run_unfolds(request, seq![DownloadEvent::Requested], 0);
}

/// Without a download root, the download of an exercise that has a link
/// fails at once, before anything is asked of the host: no process is
/// started.
pub proof fn law_unset_root_fails_first(request: &DownloadRequest)
    requires
        request.link is Some,
        request.download_path is None,
    ensures
        spec_run(request, seq![DownloadEvent::Requested]) == DownloadState::Failed(
            TranscriptionDownloaderError::RootNotConfigured,
        ),
        spec_pending_action(
            request,
            &DownloadState::Failed(TranscriptionDownloaderError::RootNotConfigured),
        ) is Stop,
{
    lemma_run_unfolds(request, seq![DownloadEvent::Requested], 0);
}

/// The prerequisites are judged before any work: a probe that did not
/// succeed ends the call with `ToolUnavailable`; after a probe that
/// succeeded, a root that does not exist ends it with `RootMissing`. Either
/// way the call is over: no staging directory is asked for and the tool is
/// not run.
pub proof fn law_failed_prerequisite_ends_call(
    request: &DownloadRequest,
    probe: ToolOutcome,
    root_exists: bool,
)
    requires
        request.download_path is Some,
    ensures
        !probe.spec_succeeded() ==> spec_next_state(
            request,
            DownloadState::Validating,
            DownloadEvent::PrerequisitesChecked { probe, root_exists },
        ) == DownloadState::Failed(TranscriptionDownloaderError::ToolUnavailable),
        probe.spec_succeeded() && !root_exists ==> spec_next_state(
            request,
            DownloadState::Validating,
            DownloadEvent::PrerequisitesChecked { probe, root_exists },
        ) == DownloadState::Failed(TranscriptionDownloaderError::RootMissing),
        probe.spec_succeeded() && root_exists ==> spec_next_state(
            request,
            DownloadState::Validating,
            DownloadEvent::PrerequisitesChecked { probe, root_exists },
        ) == DownloadState::Staging,
{
}

/// A missing root fails the download: where the exercise has a link, a root
/// is configured, the asset is not there or a new copy is asked for, and the
/// tool can be run, the report that the root does not exist ends the call
/// with `RootMissing`.
pub proof fn law_missing_root_fails(
    request: &DownloadRequest,
    asset_exists: bool,
    probe: ToolOutcome,
)
    requires
        request.link is Some,
        request.download_path is Some,
        !asset_exists || request.force_download,
        probe.spec_succeeded(),
    ensures
        spec_run(
            request,
            seq![
                DownloadEvent::Requested,
                DownloadEvent::AssetChecked { exists: asset_exists },
                DownloadEvent::PrerequisitesChecked { probe, root_exists: false },
            ],
        ) == DownloadState::Failed(TranscriptionDownloaderError::RootMissing),
{
    let e0 = DownloadEvent::Requested;
    let e1 = DownloadEvent::AssetChecked { exists: asset_exists };
    let e2 = DownloadEvent::PrerequisitesChecked { probe, root_exists: false };
    let events = seq![e0, e1, e2];
    lemma_run_unfolds(request, events, 0);
    lemma_run_unfolds(request, events, 1);
    lemma_run_unfolds(request, events, 2);
}

/// The reports of a download in which all goes well.
pub open spec fn spec_smooth_reports(
    asset_exists: bool,
    probe: ToolOutcome,
    outcome: ToolOutcome,
) -> Seq<DownloadEvent> {
    seq![
        DownloadEvent::Requested,
        DownloadEvent::AssetChecked { exists: asset_exists },
        DownloadEvent::PrerequisitesChecked { probe, root_exists: true },
        DownloadEvent::StagingAcquired { acquired: true },
        DownloadEvent::ToolFinished { outcome },
        DownloadEvent::Committed { success: true },
        DownloadEvent::StagingDiscarded,
    ]
}

/// A download in which all goes well fetches the asset and puts it where
/// the link resolves to under the download root: the place that was looked
/// at first is the place that is written to. A forced download does so even
/// though the asset is there already, and runs the tool again.
pub proof fn law_smooth_download_succeeds(
    request: &DownloadRequest,
    asset_exists: bool,
    probe: ToolOutcome,
    outcome: ToolOutcome,
)
    requires
        request.link is Some,
        request.download_path is Some,
        !asset_exists || request.force_download,
        probe.spec_succeeded(),
        outcome.spec_succeeded(),
    ensures
        spec_orderly(request, spec_smooth_reports(asset_exists, probe, outcome)),
        spec_run(request, spec_smooth_reports(asset_exists, probe, outcome))
            == DownloadState::Succeeded,
        ({
            let events = spec_smooth_reports(asset_exists, probe, outcome);
            let link = request.link->0;
            let place = spec_path_under(request.download_path, &link)->0;
            &&& spec_pending_action(request, &spec_state_after(request, events, 1))
                == (DownloadActionView::CheckAsset { path: place })
            &&& spec_pending_action(request, &spec_state_after(request, events, 2))
                == (DownloadActionView::CheckPrerequisites {
                probe: spec_probe_invocation(&link),
                root: request.download_path->0@,
            })
            &&& spec_pending_action(request, &spec_state_after(request, events, 3))
                == DownloadActionView::AcquireStaging
            &&& spec_pending_action(request, &spec_state_after(request, events, 4))
                == (DownloadActionView::RunTool { invocation: spec_fetch_invocation(&link) })
            &&& spec_pending_action(request, &spec_state_after(request, events, 5))
                == (DownloadActionView::Commit {
                staged_file: spec_staged_file_name(&link),
                destination: place,
            })
            &&& spec_pending_action(request, &spec_state_after(request, events, 6))
                == DownloadActionView::DiscardStaging
            &&& spec_pending_action(request, &spec_state_after(request, events, 7))
                == DownloadActionView::Stop
        }),
{
    let events = spec_smooth_reports(asset_exists, probe, outcome);
    lemma_run_unfolds(request, events, 0);
    lemma_run_unfolds(request, events, 1);
    lemma_run_unfolds(request, events, 2);
    lemma_run_unfolds(request, events, 3);
    lemma_run_unfolds(request, events, 4);
    lemma_run_unfolds(request, events, 5);
    lemma_run_unfolds(request, events, 6);
}

} // verus!
