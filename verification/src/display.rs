//! What is shown of an asset, an exercise or its answer. The renderers here
//! say what to show, item by item; putting it on the terminal is the host's
//! part.

use vstd::prelude::*;
use vstd::string::StringExecFns;
use crate::data::{
    ustr_as_str, ustr_text, BasicAsset, ExerciseAsset, ExerciseManifest, LiteracyLesson,
};

verus! {

/// One thing to show.
#[derive(Clone, Debug, PartialEq, Eq)]
pub enum DisplayItem {
    /// A line of plain text.
    Line(String),
    /// An empty line.
    Blank,
    /// Markdown text, rendered inline and followed by a line break.
    Markdown(String),
    /// The markdown file at this path, read, rendered inline and followed by
    /// a line break.
    MarkdownFile(String),
}

/// What a [`DisplayItem`] holds, as text.
pub enum DisplayItemView {
    Line(Seq<char>),
    Blank,
    Markdown(Seq<char>),
    MarkdownFile(Seq<char>),
}

impl View for DisplayItem {
    type V = DisplayItemView;

    open spec fn view(&self) -> DisplayItemView {
        match self {
            DisplayItem::Line(text) => DisplayItemView::Line(text@),
            DisplayItem::Blank => DisplayItemView::Blank,
            DisplayItem::Markdown(text) => DisplayItemView::Markdown(text@),
            DisplayItem::MarkdownFile(path) => DisplayItemView::MarkdownFile(path@),
        }
    }
}

impl DeepView for DisplayItem {
    type V = DisplayItemView;

    open spec fn deep_view(&self) -> DisplayItemView {
        self@
    }
}

/// The most values that are shown of a list of examples.
pub const SAMPLE_SIZE: usize = 5;

/// Whether `sampled` can come of sampling `values`: it is the beginning, five
/// values long at most, of some rearrangement of `values`.
pub open spec fn spec_is_sample(values: Seq<String>, sampled: Seq<String>) -> bool {
    exists|shuffled: Seq<String>|
        #![trigger shuffled.to_multiset()]
        shuffled.to_multiset() == values.to_multiset() && sampled == shuffled.take(
            if shuffled.len() <= SAMPLE_SIZE {
                shuffled.len() as int
            } else {
                SAMPLE_SIZE as int
            },
        )
}

/// What showing the markdown file at `path` consists of.
pub open spec fn spec_print_markdown(path: Seq<char>) -> Seq<DisplayItemView> {
    seq![DisplayItemView::MarkdownFile(path)]
}

/// One markdown item for each text.
pub open spec fn spec_markdown_items(texts: Seq<String>) -> Seq<DisplayItemView> {
    Seq::new(texts.len(), |i: int| DisplayItemView::Markdown(texts[i]@))
}

/// A titled list of texts; nothing at all where there are no texts.
pub open spec fn spec_section(title: Seq<char>, texts: Seq<String>) -> Seq<DisplayItemView> {
    if texts.len() == 0 {
        Seq::empty()
    } else {
        seq![DisplayItemView::Line(title)] + spec_markdown_items(texts)
    }
}

/// The line that names the kind of a literacy lesson.
pub open spec fn spec_lesson_type_line(lesson_type: LiteracyLesson) -> Seq<char> {
    match lesson_type {
        LiteracyLesson::Reading => "Lesson type: Reading"@,
        LiteracyLesson::Dictation => "Lesson type: Dictation"@,
    }
}

/// What showing a literacy asset consists of, once the examples and the
/// exceptions to show are picked.
pub open spec fn spec_literacy_items(
    lesson_type: LiteracyLesson,
    sampled_examples: Seq<String>,
    sampled_exceptions: Seq<String>,
) -> Seq<DisplayItemView> {
    seq![DisplayItemView::Line(spec_lesson_type_line(lesson_type))] + spec_section(
        "Examples:"@,
        sampled_examples,
    ) + spec_section("Exceptions:"@, sampled_exceptions)
}

/// Whether `items` can come of showing a literacy asset: they are what is
/// shown for some sample of the examples and some sample of the exceptions.
pub open spec fn spec_prints_literacy(
    lesson_type: LiteracyLesson,
    examples: Seq<String>,
    exceptions: Seq<String>,
    items: Seq<DisplayItemView>,
) -> bool {
    exists|sampled_examples: Seq<String>, sampled_exceptions: Seq<String>|
        #![trigger spec_literacy_items(lesson_type, sampled_examples, sampled_exceptions)]
        spec_is_sample(examples, sampled_examples) && spec_is_sample(
            exceptions,
            sampled_exceptions,
        ) && items == spec_literacy_items(lesson_type, sampled_examples, sampled_exceptions)
}

/// What showing a basic asset consists of.
pub open spec fn spec_basic_asset_items(asset: &BasicAsset) -> Seq<DisplayItemView> {
    match asset {
        BasicAsset::MarkdownAsset { path } => spec_print_markdown(path@),
        BasicAsset::InlinedAsset { content } => seq![DisplayItemView::Markdown(content@)],
        BasicAsset::InlinedUniqueAsset { content } => seq![
            DisplayItemView::Markdown(ustr_text(*content)),
        ],
    }
}

/// What showing a SoundSlice consists of: its description, if it has one,
/// and its link.
pub open spec fn spec_sound_slice_items(link: Seq<char>, description: Option<String>) -> Seq<
    DisplayItemView,
> {
    let last = seq![DisplayItemView::Line("SoundSlice link: "@ + link)];
    match description {
        Some(description) => seq![
            DisplayItemView::Line("Exercise description:"@),
            DisplayItemView::Markdown(description@),
        ] + last,
        None => last,
    }
}

/// Whether `items` can come of showing the content of an exercise.
pub open spec fn spec_shows_asset(asset: &ExerciseAsset, items: Seq<DisplayItemView>) -> bool {
    match asset {
        ExerciseAsset::BasicAsset(asset) => items == spec_basic_asset_items(asset),
        ExerciseAsset::FlashcardAsset { front_path, .. } => items == spec_print_markdown(
            front_path@,
        ),
        ExerciseAsset::LiteracyAsset { lesson_type, examples, exceptions } => {
            spec_prints_literacy(*lesson_type, examples@, exceptions@, items)
        },
        ExerciseAsset::SoundSliceAsset { link, description, .. } => items
            == spec_sound_slice_items(link@, *description),
        ExerciseAsset::TranscriptionAsset { content, .. } => items == seq![
            DisplayItemView::Markdown(content@),
        ],
    }
}

/// The lines that say which exercise is shown.
pub open spec fn spec_manifest_header(manifest: &ExerciseManifest) -> Seq<DisplayItemView> {
    seq![
        DisplayItemView::Line("Course ID: "@ + ustr_text(manifest.course_id)),
        DisplayItemView::Line("Lesson ID: "@ + ustr_text(manifest.lesson_id)),
        DisplayItemView::Line("Exercise ID: "@ + ustr_text(manifest.id)),
        DisplayItemView::Blank,
    ]
}

/// The lines that give the description of an exercise, if it has one.
pub open spec fn spec_description_items(description: Option<String>) -> Seq<DisplayItemView> {
    match description {
        Some(description) => seq![
            DisplayItemView::Line("Exercise description: "@ + description@),
            DisplayItemView::Blank,
        ],
        None => Seq::empty(),
    }
}

/// Whether `items` can come of showing an exercise: the header, the
/// description and the content, in this order.
pub open spec fn spec_shows_exercise(
    manifest: &ExerciseManifest,
    items: Seq<DisplayItemView>,
) -> bool {
    exists|content: Seq<DisplayItemView>|
        #![trigger spec_shows_asset(&manifest.exercise_asset, content)]
        spec_shows_asset(&manifest.exercise_asset, content) && items == spec_manifest_header(
            manifest,
        ) + spec_description_items(manifest.description) + content
}

/// The line shown where an exercise has no answer.
pub open spec fn spec_no_answer_line() -> DisplayItemView {
    DisplayItemView::Line("No answer available for this exercise."@)
}

/// What showing the answer to the content of an exercise consists of.
pub open spec fn spec_asset_answer_items(asset: &ExerciseAsset) -> Seq<DisplayItemView> {
    match asset {
        ExerciseAsset::BasicAsset(_) => seq![spec_no_answer_line(), DisplayItemView::Blank],
        ExerciseAsset::TranscriptionAsset { .. } => seq![
            spec_no_answer_line(),
            DisplayItemView::Blank,
        ],
        ExerciseAsset::FlashcardAsset { back_path, .. } => match back_path {
            Some(back_path) => seq![
                DisplayItemView::Line("Answer:"@),
                DisplayItemView::Blank,
            ] + spec_print_markdown(back_path@),
            None => seq![spec_no_answer_line()],
        },
        ExerciseAsset::SoundSliceAsset { .. } => Seq::empty(),
        ExerciseAsset::LiteracyAsset { .. } => Seq::empty(),
    }
}

/// What showing the answer to an exercise consists of: the header, then the
/// answer to its content.
pub open spec fn spec_manifest_answer_items(manifest: &ExerciseManifest) -> Seq<DisplayItemView> {
    spec_manifest_header(manifest) + spec_asset_answer_items(&manifest.exercise_asset)
}

/// Calls `rand::thread_rng` and, with it, `SliceRandom::shuffle` on the
/// values. Whatever order comes out, it holds the same values as often as
/// they were put in; no more is known of it.
#[verifier::external_body]
fn shuffle(values: Vec<String>) -> (shuffled: Vec<String>)
    ensures
        shuffled@.to_multiset() == values@.to_multiset(),
{
    let mut values = values;
    let mut rng = rand::thread_rng();
    rand::seq::SliceRandom::shuffle(values.as_mut_slice(), &mut rng);
    values
}

/// Keeps the first five values of a shuffled list.
pub fn take_sample(shuffled: Vec<String>) -> (sampled: Vec<String>)
    ensures
        sampled@ == shuffled@.take(
            if shuffled@.len() <= SAMPLE_SIZE {
                shuffled@.len() as int
            } else {
                SAMPLE_SIZE as int
            },
        ),
{
    let mut sampled = shuffled;
    sampled.truncate(SAMPLE_SIZE);
    sampled
}

/// Randomly samples five values from the given list of strings: all of them
/// where there are no more than five.
pub fn sample(values: &[String]) -> (sampled: Vec<String>)
    ensures
        spec_is_sample(values@, sampled@),
        sampled@.len() == if values@.len() <= SAMPLE_SIZE {
            values@.len()
        } else {
            SAMPLE_SIZE as nat
        },
{
    let mut copied: Vec<String> = Vec::new();
    let mut i: usize = 0;
    while i < values.len()
        invariant
            0 <= i <= values@.len(),
            copied@ == values@.take(i as int),
        decreases values@.len() - i,
    {
        copied.push(values[i].clone());
        i += 1;
    }
    assert(copied@ =~= values@);
    let shuffled = shuffle(copied);
    proof {
        // A rearrangement has as many values as the list it was made from.
        shuffled@.to_multiset_ensures();
        values@.to_multiset_ensures();
    }
    take_sample(shuffled)
}

/// Lists the markdown file at the given path as the one thing to show.
pub fn print_markdown(path: &str) -> (items: Vec<DisplayItem>)
    ensures
        items.deep_view() == spec_print_markdown(path@),
{
    let mut items: Vec<DisplayItem> = Vec::new();
    items.push(DisplayItem::MarkdownFile(path.to_owned()));
    items
}

/// Adds a titled list of texts to the items; nothing where there are no
/// texts.
fn push_section(items: &mut Vec<DisplayItem>, title: &str, texts: &Vec<String>)
    ensures
        final(items).deep_view() == old(items).deep_view() + spec_section(title@, texts@),
{
    let ghost before = items.deep_view();
    if texts.len() == 0 {
        return ;
    }
    items.push(DisplayItem::Line(title.to_owned()));
    let mut i: usize = 0;
    while i < texts.len()
        invariant
            0 <= i <= texts@.len(),
            items.deep_view() == before + seq![DisplayItemView::Line(title@)]
                + spec_markdown_items(texts@.take(i as int)),
        decreases texts@.len() - i,
    {
        let ghost shown = items.deep_view();
        items.push(DisplayItem::Markdown(texts[i].clone()));
        assert(items.deep_view() =~= shown.push(DisplayItemView::Markdown(texts@[i as int]@)));
        i += 1;
    }
}

/// Lists what is shown of a literacy asset for the examples and exceptions
/// that were picked.
pub fn literacy_items(
    lesson_type: LiteracyLesson,
    sampled_examples: &Vec<String>,
    sampled_exceptions: &Vec<String>,
) -> (items: Vec<DisplayItem>)
    ensures
        items.deep_view() == spec_literacy_items(
            lesson_type,
            sampled_examples@,
            sampled_exceptions@,
        ),
{
    let mut items: Vec<DisplayItem> = Vec::new();
    match lesson_type {
        LiteracyLesson::Reading => items.push(
            DisplayItem::Line("Lesson type: Reading".to_owned()),
        ),
        LiteracyLesson::Dictation => items.push(
            DisplayItem::Line("Lesson type: Dictation".to_owned()),
        ),
    }
    push_section(&mut items, "Examples:", sampled_examples);
    push_section(&mut items, "Exceptions:", sampled_exceptions);
    items
}

/// Lists what is shown of a literacy asset: the kind of the lesson, then a
/// sample of the examples and a sample of the exceptions.
pub fn print_literacy(
    lesson_type: LiteracyLesson,
    examples: &[String],
    exceptions: &[String],
) -> (items: Vec<DisplayItem>)
    ensures
        spec_prints_literacy(lesson_type, examples@, exceptions@, items.deep_view()),
{
    let sampled_examples = sample(examples);
    let sampled_exceptions = sample(exceptions);
    let items = literacy_items(lesson_type, &sampled_examples, &sampled_exceptions);
    items
}

/// Makes a line of a label and the text that follows it.
fn labelled_line(label: &str, text: &str) -> (item: DisplayItem)
    ensures
        item@ == DisplayItemView::Line(label@ + text@),
{
    DisplayItem::Line(label.to_owned().concat(text))
}

/// Lists the lines that say which exercise is shown.
fn manifest_header(manifest: &ExerciseManifest) -> (items: Vec<DisplayItem>)
    ensures
        items.deep_view() == spec_manifest_header(manifest),
{
    let mut items: Vec<DisplayItem> = Vec::new();
    items.push(labelled_line("Course ID: ", ustr_as_str(&manifest.course_id)));
    items.push(labelled_line("Lesson ID: ", ustr_as_str(&manifest.lesson_id)));
    items.push(labelled_line("Exercise ID: ", ustr_as_str(&manifest.id)));
    items.push(DisplayItem::Blank);
    items
}

/// Trait to display an asset to the terminal.
pub trait DisplayAsset {
    /// What showing the asset consists of.
    spec fn spec_display_asset(&self) -> Seq<DisplayItemView>;

    /// Lists what is to be shown of the asset.
    fn display_asset(&self) -> (items: Vec<DisplayItem>)
        ensures
            items.deep_view() == self.spec_display_asset(),
    ;
}

impl DisplayAsset for BasicAsset {
    open spec fn spec_display_asset(&self) -> Seq<DisplayItemView> {
        spec_basic_asset_items(self)
    }

    fn display_asset(&self) -> (items: Vec<DisplayItem>) {
        match self {
            BasicAsset::MarkdownAsset { path } => print_markdown(path.as_str()),
            BasicAsset::InlinedAsset { content } => {
                let mut items: Vec<DisplayItem> = Vec::new();
                items.push(DisplayItem::Markdown(content.clone()));
                items
            },
            BasicAsset::InlinedUniqueAsset { content } => {
                let mut items: Vec<DisplayItem> = Vec::new();
                items.push(DisplayItem::Markdown(ustr_as_str(content).to_owned()));
                items
            },
        }
    }
}

/// Trait to display an exercise in the terminal.
pub trait DisplayExercise {
    /// Whether `items` can come of showing the exercise. Where examples are
    /// sampled, more than one list can.
    spec fn spec_display_exercise(&self, items: Seq<DisplayItemView>) -> bool;

    /// Lists what is to be shown of the exercise.
    fn display_exercise(&self) -> (items: Vec<DisplayItem>)
        ensures
            self.spec_display_exercise(items.deep_view()),
    ;
}

impl DisplayExercise for ExerciseAsset {
    open spec fn spec_display_exercise(&self, items: Seq<DisplayItemView>) -> bool {
        spec_shows_asset(self, items)
    }

    fn display_exercise(&self) -> (items: Vec<DisplayItem>) {
        match self {
            ExerciseAsset::BasicAsset(asset) => asset.display_asset(),
            ExerciseAsset::FlashcardAsset { front_path, .. } => print_markdown(
                front_path.as_str(),
            ),
            ExerciseAsset::LiteracyAsset { lesson_type, examples, exceptions } => print_literacy(
                *lesson_type,
                examples.as_slice(),
                exceptions.as_slice(),
            ),
            ExerciseAsset::SoundSliceAsset { link, description, .. } => {
                let mut items: Vec<DisplayItem> = Vec::new();
                match description {
                    Some(description) => {
                        items.push(DisplayItem::Line("Exercise description:".to_owned()));
                        items.push(DisplayItem::Markdown(description.clone()));
                    },
                    None => {},
                }
                items.push(labelled_line("SoundSlice link: ", link.as_str()));
                assert(items.deep_view() =~= spec_sound_slice_items(link@, *description));
                items
            },
            ExerciseAsset::TranscriptionAsset { content, .. } => {
                let mut items: Vec<DisplayItem> = Vec::new();
                items.push(DisplayItem::Markdown(content.clone()));
                assert(items.deep_view() =~= seq![DisplayItemView::Markdown(content@)]);
                items
            },
        }
    }
}

impl DisplayExercise for ExerciseManifest {
    open spec fn spec_display_exercise(&self, items: Seq<DisplayItemView>) -> bool {
        spec_shows_exercise(self, items)
    }

    fn display_exercise(&self) -> (items: Vec<DisplayItem>) {
        let mut items = manifest_header(self);
        match &self.description {
            Some(description) => {
                items.push(labelled_line("Exercise description: ", description.as_str()));
                items.push(DisplayItem::Blank);
            },
            None => {},
        }
        let mut content = self.exercise_asset.display_exercise();
        let ghost shown = content.deep_view();
        items.append(&mut content);
        assert(items.deep_view() =~= spec_manifest_header(self) + spec_description_items(
            self.description,
        ) + shown);
        items
    }
}

/// Trait to display an exercise's answer in the terminal.
pub trait DisplayAnswer {
    /// What showing the answer consists of.
    spec fn spec_display_answer(&self) -> Seq<DisplayItemView>;

    /// Lists what is to be shown of the exercise's answer.
    fn display_answer(&self) -> (items: Vec<DisplayItem>)
        ensures
            items.deep_view() == self.spec_display_answer(),
    ;
}

impl DisplayAnswer for ExerciseAsset {
    open spec fn spec_display_answer(&self) -> Seq<DisplayItemView> {
        spec_asset_answer_items(self)
    }

    fn display_answer(&self) -> (items: Vec<DisplayItem>) {
        let mut items: Vec<DisplayItem> = Vec::new();
        match self {
            ExerciseAsset::BasicAsset(_) | ExerciseAsset::TranscriptionAsset { .. } => {
                items.push(DisplayItem::Line("No answer available for this exercise.".to_owned()));
                items.push(DisplayItem::Blank);
            },
            ExerciseAsset::FlashcardAsset { back_path, .. } => {
                match back_path {
                    Some(back_path) => {
                        items.push(DisplayItem::Line("Answer:".to_owned()));
                        items.push(DisplayItem::Blank);
                        items.push(DisplayItem::MarkdownFile(back_path.clone()));
                    },
                    None => {
                        items.push(
                            DisplayItem::Line("No answer available for this exercise.".to_owned()),
                        );
                    },
                }
            },
            ExerciseAsset::SoundSliceAsset { .. } | ExerciseAsset::LiteracyAsset { .. } => {},
        }
        items
    }
}

impl DisplayAnswer for ExerciseManifest {
    open spec fn spec_display_answer(&self) -> Seq<DisplayItemView> {
        spec_manifest_answer_items(self)
    }

    fn display_answer(&self) -> (items: Vec<DisplayItem>) {
        let mut items = manifest_header(self);
        let mut answer = self.exercise_asset.display_answer();
        items.append(&mut answer);
        items
    }
}

} // verus!
