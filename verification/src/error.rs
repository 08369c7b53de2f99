//! The ways in which a download can fail.

use vstd::prelude::*;
use vstd::string::StringExecFns;
use ustr::Ustr;
use crate::data::{ustr_as_str, ustr_text};

verus! {

/// An error returned when downloading transcription assets. None of them is
/// retried by the cache.
#[derive(Clone, Debug, PartialEq, Eq)]
pub enum TranscriptionDownloaderError {
    /// The probe of the external tool did not start or did not exit with
    /// status zero.
    ToolUnavailable,
    /// No download directory is configured.
    RootNotConfigured,
    /// The configured download directory does not exist.
    RootMissing,
    /// The tool was run for this exercise and did not succeed; `diagnostic`
    /// is what it reported.
    DownloadFailed { exercise_id: Ustr, diagnostic: String },
    /// The tool succeeded, but the staging directory could not be had or the
    /// asset could not be put in its place.
    FilesystemError,
}

impl TranscriptionDownloaderError {
    /// What the error says, in words.
    pub open spec fn spec_message(&self) -> Seq<char> {
        match self {
            TranscriptionDownloaderError::ToolUnavailable => "the download tool cannot be run"@,
            TranscriptionDownloaderError::RootNotConfigured => {
                "transcription download path is not set"@
            },
            TranscriptionDownloaderError::RootMissing => {
                "transcription download path does not exist"@
            },
            TranscriptionDownloaderError::DownloadFailed { exercise_id, diagnostic } => {
                "cannot download asset for exercise "@ + ustr_text(*exercise_id) + ": "@
                    + diagnostic@
            },
            TranscriptionDownloaderError::FilesystemError => {
                "cannot put the downloaded asset in its place"@
            },
        }
    }

    /// Says in words what went wrong.
    pub fn message(&self) -> (message: String)
        ensures
            message@ == self.spec_message(),
    {
        match self {
            TranscriptionDownloaderError::ToolUnavailable => {
                "the download tool cannot be run".to_owned()
            },
            TranscriptionDownloaderError::RootNotConfigured => {
                "transcription download path is not set".to_owned()
            },
            TranscriptionDownloaderError::RootMissing => {
                "transcription download path does not exist".to_owned()
            },
            TranscriptionDownloaderError::DownloadFailed { exercise_id, diagnostic } => {
                "cannot download asset for exercise ".to_owned().concat(
                    ustr_as_str(exercise_id),
                ).concat(": ").concat(diagnostic.as_str())
            },
            TranscriptionDownloaderError::FilesystemError => {
                "cannot put the downloaded asset in its place".to_owned()
            },
        }
    }
}

} // verus!
