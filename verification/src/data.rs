//! The data that the asset cache and the renderers read: exercise manifests,
//! their assets, links to external media and the user's download preferences.

use vstd::prelude::*;

verus! {

/// Declares `ustr::Ustr`, the handle of an interned string that unit
/// identifiers are made of. Nothing is known of what is inside a handle.
#[verifier::external_type_specification]
#[verifier::external_body]
pub struct ExUstr(ustr::Ustr);

/// Specifies `Ustr::clone`. `Ustr` derives `Clone` beside `Copy`: a clone is
/// the same handle.
pub assume_specification[ <ustr::Ustr as Clone>::clone ](handle: &ustr::Ustr) -> (copy: ustr::Ustr)
    ensures
        copy == *handle,
;

/// The text that a handle stands for, as `Ustr::as_str` gives it. The text
/// is fixed when the handle is made and never changes.
pub uninterp spec fn ustr_text(handle: ustr::Ustr) -> Seq<char>;

/// Calls `Ustr::as_str`: the result is the text that the handle stands for.
#[verifier::external_body]
pub(crate) fn ustr_as_str(handle: &ustr::Ustr) -> (text: &'static str)
    ensures
        text@ == ustr_text(*handle),
{
    handle.as_str()
}

/// A link to an externally hosted asset, tagged by its provider.
#[derive(Debug, PartialEq, Eq)]
pub enum TranscriptionLink {
    /// A link to a YouTube video.
    YouTube(String),
}

impl TranscriptionLink {
    /// The canonical string payload of the link: the text that identifies the
    /// asset and that its storage directory is derived from.
    pub open spec fn payload(&self) -> Seq<char> {
        match self {
            TranscriptionLink::YouTube(url) => url@,
        }
    }

    /// Returns the URL of the link.
    pub fn url(&self) -> (url: &str)
        ensures
            url@ == self.payload(),
    {
        match self {
            TranscriptionLink::YouTube(url) => url.as_str(),
        }
    }
}

impl Clone for TranscriptionLink {
    fn clone(&self) -> (copy: Self)
        ensures
            copy == *self,
    {
        match self {
            TranscriptionLink::YouTube(url) => TranscriptionLink::YouTube(url.clone()),
        }
    }
}

/// An instrument that the user practices transcription exercises on.
#[derive(Clone, Debug, PartialEq)]
pub struct Instrument {
    /// The name of the instrument.
    pub name: String,
    /// The identifier of the instrument.
    pub id: String,
}

/// The user's settings for transcription courses.
#[derive(Clone, Debug, PartialEq)]
pub struct TranscriptionPreferences {
    /// The instruments the user practices. The asset cache passes them through.
    pub instruments: Vec<Instrument>,
    /// The directory under which downloaded assets are stored.
    pub download_path: Option<String>,
    /// Another name for the download directory, shown to the user and never
    /// read or written.
    pub download_path_alias: Option<String>,
}

impl Default for TranscriptionPreferences {
    fn default() -> (preferences: Self)
        ensures
            preferences.instruments@.len() == 0,
            preferences.download_path is None,
            preferences.download_path_alias is None,
    {
        TranscriptionPreferences {
            instruments: Vec::new(),
            download_path: None,
            download_path_alias: None,
        }
    }
}

/// An asset that holds text, inline or in a markdown file.
#[allow(inconsistent_fields)]
#[derive(Clone, Debug, PartialEq)]
pub enum BasicAsset {
    /// Markdown stored in the file at `path`.
    MarkdownAsset { path: String },
    /// Markdown given inline.
    InlinedAsset { content: String },
    /// Markdown given inline and interned.
    InlinedUniqueAsset { content: ustr::Ustr },
}

/// The kind of a literacy lesson.
#[derive(Clone, Copy, Debug, PartialEq, Eq)]
pub enum LiteracyLesson {
    /// The student reads the examples.
    Reading,
    /// The student writes the examples down from dictation.
    Dictation,
}

/// The kind of knowledge an exercise tests.
#[derive(Clone, Copy, Debug, PartialEq, Eq)]
pub enum ExerciseType {
    /// Recalling a fact.
    Declarative,
    /// Performing a procedure.
    Procedural,
}

/// The content of an exercise.
#[derive(Clone, Debug, PartialEq)]
pub enum ExerciseAsset {
    /// Plain text content.
    BasicAsset(BasicAsset),
    /// A flashcard whose front and optional back are markdown files.
    FlashcardAsset { front_path: String, back_path: Option<String> },
    /// Examples and exceptions for a literacy lesson.
    LiteracyAsset { lesson_type: LiteracyLesson, examples: Vec<String>, exceptions: Vec<String> },
    /// A link to a SoundSlice, with an optional description and backup file.
    SoundSliceAsset { link: String, description: Option<String>, backup: Option<String> },
    /// A passage to transcribe, with an optional link to its audio.
    TranscriptionAsset { content: String, external_link: Option<TranscriptionLink> },
}

/// The manifest of one exercise.
#[derive(Clone, Debug, PartialEq)]
pub struct ExerciseManifest {
    /// The identifier of the exercise.
    pub id: ustr::Ustr,
    /// The identifier of the lesson the exercise belongs to.
    pub lesson_id: ustr::Ustr,
    /// The identifier of the course the exercise belongs to.
    pub course_id: ustr::Ustr,
    /// The name of the exercise.
    pub name: String,
    /// An optional description of the exercise.
    pub description: Option<String>,
    /// The kind of knowledge the exercise tests.
    pub exercise_type: ExerciseType,
    /// The content of the exercise.
    pub exercise_asset: ExerciseAsset,
}

} // verus!
