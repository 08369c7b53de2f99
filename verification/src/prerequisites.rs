//! Prerequisite validation: the two checks that every download attempt must
//! pass before any work is done. The host gathers the facts afresh for each
//! attempt; the verdict on them is given here.

use vstd::prelude::*;
use crate::error::TranscriptionDownloaderError;
use crate::tool::ToolOutcome;
use crate::transcription_downloader::LocalTranscriptionDownloader;

verus! {

/// The verdict on a probe of the tool: it must have started and exited with
/// status zero.
pub open spec fn spec_verify_binary(probe: &ToolOutcome) -> Result<
    (),
    TranscriptionDownloaderError,
> {
    if probe.spec_succeeded() {
        Ok(())
    } else {
        Err(TranscriptionDownloaderError::ToolUnavailable)
    }
}

/// The verdict on the download root: it must be configured, and it must
/// exist at the time of the attempt.
pub open spec fn spec_verify_root(download_path: &Option<String>, root_exists: bool) -> Result<
    (),
    TranscriptionDownloaderError,
> {
    if download_path is None {
        Err(TranscriptionDownloaderError::RootNotConfigured)
    } else if !root_exists {
        Err(TranscriptionDownloaderError::RootMissing)
    } else {
        Ok(())
    }
}

/// The verdict on both checks: the tool is judged first, then the root.
pub open spec fn spec_check_prerequisites(
    download_path: &Option<String>,
    probe: &ToolOutcome,
    root_exists: bool,
) -> Result<(), TranscriptionDownloaderError> {
    if spec_verify_binary(probe) is Err {
        spec_verify_binary(probe)
    } else {
        spec_verify_root(download_path, root_exists)
    }
}

impl LocalTranscriptionDownloader {
    /// Verifies that a binary is installed, from what the host saw of a run
    /// of it with an argument that makes it exit quickly.
    pub fn verify_binary(probe: &ToolOutcome) -> (verdict: Result<(), TranscriptionDownloaderError>)
        ensures
            verdict == spec_verify_binary(probe),
    {
        if probe.succeeded() {
            Ok(())
        } else {
            Err(TranscriptionDownloaderError::ToolUnavailable)
        }
    }

    /// Checks that the prerequisites to use the downloader are met: the tool
    /// can be run, and the download path is set and exists. `root_exists` is
    /// read only where a download path is set.
    pub fn check_prerequisites(
        download_path: &Option<String>,
        probe: &ToolOutcome,
        root_exists: bool,
    ) -> (verdict: Result<(), TranscriptionDownloaderError>)
        ensures
            verdict == spec_check_prerequisites(download_path, probe, root_exists),
    {
        match Self::verify_binary(probe) {
            Err(error) => Err(error),
            Ok(()) => {
                if download_path.is_none() {
                    Err(TranscriptionDownloaderError::RootNotConfigured)
                } else if !root_exists {
                    Err(TranscriptionDownloaderError::RootMissing)
                } else {
                    Ok(())
                }
            },
        }
    }
}

} // verus!
