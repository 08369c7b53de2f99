//! The external conversion tool, as the cache sees it: what to run, with which
//! arguments, and what came of it. Running it is the host's part.

use vstd::prelude::*;
use crate::data::TranscriptionLink;

verus! {

/// One argument of a tool invocation.
#[derive(Clone, Debug, PartialEq, Eq)]
pub enum ToolArgument {
    /// The argument is this text.
    Text(String),
    /// The argument is the path of the file with this name inside the
    /// staging directory that the host holds for the download.
    StagedFile(String),
}

/// What a [`ToolArgument`] holds, as text.
pub enum ToolArgumentView {
    Text(Seq<char>),
    StagedFile(Seq<char>),
}

impl View for ToolArgument {
    type V = ToolArgumentView;

    open spec fn view(&self) -> ToolArgumentView {
        match self {
            ToolArgument::Text(text) => ToolArgumentView::Text(text@),
            ToolArgument::StagedFile(name) => ToolArgumentView::StagedFile(name@),
        }
    }
}

impl DeepView for ToolArgument {
    type V = ToolArgumentView;

    open spec fn deep_view(&self) -> ToolArgumentView {
        self@
    }
}

/// A command line for the external tool. Its standard input and output are
/// always suppressed.
#[derive(Clone, Debug, PartialEq, Eq)]
pub struct ToolInvocation {
    /// The name of the program, looked up on the search path.
    pub program: String,
    /// The arguments, in order.
    pub arguments: Vec<ToolArgument>,
    /// Whether what the tool writes to its error stream is kept, to be
    /// reported if it fails. Otherwise the error stream is suppressed too.
    pub capture_diagnostics: bool,
}

/// What a [`ToolInvocation`] holds, as text.
pub struct ToolInvocationView {
    pub program: Seq<char>,
    pub arguments: Seq<ToolArgumentView>,
    pub capture_diagnostics: bool,
}

impl View for ToolInvocation {
    type V = ToolInvocationView;

    open spec fn view(&self) -> ToolInvocationView {
        ToolInvocationView {
            program: self.program@,
            arguments: self.arguments.deep_view(),
            capture_diagnostics: self.capture_diagnostics,
        }
    }
}

/// What the host saw of one run of the tool.
#[derive(Clone, Debug, PartialEq, Eq)]
pub enum ToolOutcome {
    /// The process could not be started; `reason` says why.
    NotStarted { reason: String },
    /// The process ran to its end. `success` tells a zero exit status;
    /// `diagnostic` is what was captured of its error stream.
    Exited { success: bool, diagnostic: String },
}

impl ToolOutcome {
    /// A run counts as a success only if the process started and exited with
    /// status zero.
    pub open spec fn spec_succeeded(&self) -> bool {
        match self {
            ToolOutcome::Exited { success, .. } => *success,
            ToolOutcome::NotStarted { .. } => false,
        }
    }

    /// The text that explains a run: the captured error stream, or the reason
    /// the process did not start.
    pub open spec fn spec_diagnostic(&self) -> String {
        match self {
            ToolOutcome::Exited { diagnostic, .. } => *diagnostic,
            ToolOutcome::NotStarted { reason } => *reason,
        }
    }

    /// Whether the process started and exited with status zero.
    #[verifier::when_used_as_spec(spec_succeeded)]
    pub fn succeeded(&self) -> (yes: bool)
        ensures
            yes == self.spec_succeeded(),
    {
        match self {
            ToolOutcome::Exited { success, .. } => *success,
            ToolOutcome::NotStarted { .. } => false,
        }
    }

    /// Takes the explaining text out of the outcome.
    pub fn into_diagnostic(self) -> (text: String)
        ensures
            text == self.spec_diagnostic(),
    {
        match self {
            ToolOutcome::Exited { diagnostic, .. } => diagnostic,
            ToolOutcome::NotStarted { reason } => reason,
        }
    }
}

/// The name of the file that the tool is told to write inside the staging
/// directory, fixed for each provider.
pub open spec fn spec_staged_file_name(link: &TranscriptionLink) -> Seq<char> {
    match link {
        TranscriptionLink::YouTube(_) => "audio.m4a"@,
    }
}

/// The quick, harmless invocation that shows whether the tool for a link can
/// be run at all.
pub open spec fn spec_probe_invocation(link: &TranscriptionLink) -> ToolInvocationView {
    match link {
        TranscriptionLink::YouTube(_) => ToolInvocationView {
            program: "yt-dlp"@,
            arguments: seq![ToolArgumentView::Text("--version"@)],
            capture_diagnostics: false,
        },
    }
}

/// The invocation that fetches a link's asset into the staging directory:
/// file URLs allowed, audio only, a fixed encoding, the staged file as the
/// output and the link's payload as the source.
pub open spec fn spec_fetch_invocation(link: &TranscriptionLink) -> ToolInvocationView {
    match link {
        TranscriptionLink::YouTube(url) => ToolInvocationView {
            program: "yt-dlp"@,
            arguments: seq![
                ToolArgumentView::Text("--enable-file-urls"@),
                ToolArgumentView::Text("--extract-audio"@),
                ToolArgumentView::Text("--audio-format"@),
                ToolArgumentView::Text("m4a"@),
                ToolArgumentView::Text("--output"@),
                ToolArgumentView::StagedFile(spec_staged_file_name(link)),
                ToolArgumentView::Text(url@),
            ],
            capture_diagnostics: true,
        },
    }
}

/// Gets the name of the file that the tool writes inside the staging
/// directory.
pub fn staged_file_name(link: &TranscriptionLink) -> (name: String)
    ensures
        name@ == spec_staged_file_name(link),
{
    match link {
        TranscriptionLink::YouTube(_) => "audio.m4a".to_owned(),
    }
}

/// Builds the invocation that probes the tool for a link.
pub fn probe_invocation(link: &TranscriptionLink) -> (invocation: ToolInvocation)
    ensures
        invocation@ == spec_probe_invocation(link),
{
    match link {
        TranscriptionLink::YouTube(_) => {
            let mut arguments: Vec<ToolArgument> = Vec::new();
            arguments.push(ToolArgument::Text("--version".to_owned()));
            assert(arguments.deep_view() =~= seq![ToolArgumentView::Text("--version"@)]);
            ToolInvocation {
                program: "yt-dlp".to_owned(),
                arguments,
                capture_diagnostics: false,
            }
        },
    }
}

/// Builds the invocation that fetches a link's asset.
pub fn fetch_invocation(link: &TranscriptionLink) -> (invocation: ToolInvocation)
    ensures
        invocation@ == spec_fetch_invocation(link),
{
    match link {
        TranscriptionLink::YouTube(url) => {
            let mut arguments: Vec<ToolArgument> = Vec::new();
            arguments.push(ToolArgument::Text("--enable-file-urls".to_owned()));
            arguments.push(ToolArgument::Text("--extract-audio".to_owned()));
            arguments.push(ToolArgument::Text("--audio-format".to_owned()));
            arguments.push(ToolArgument::Text("m4a".to_owned()));
            arguments.push(ToolArgument::Text("--output".to_owned()));
            arguments.push(ToolArgument::StagedFile(staged_file_name(link)));
            arguments.push(ToolArgument::Text(url.clone()));
            assert(arguments.deep_view() =~= spec_fetch_invocation(link).arguments);
            ToolInvocation { program: "yt-dlp".to_owned(), arguments, capture_diagnostics: true }
        },
    }
}

} // verus!
