//! Filters on the units to practice: which one is in force, which units a
//! filter may name, and how a filter on metadata is put together.

use vstd::prelude::*;
use ustr::Ustr;
use vstd::string::StringExecFns;
use crate::cli::KeyValue;
use crate::data::{ustr_as_str, ustr_text};
use crate::session::{is_empty_id, spec_is_empty_id};

verus! {

/// Which exercises a batch is drawn from: a saved study session, or a filter
/// on the units.
#[derive(Clone, Debug, PartialEq, Eq)]
pub enum ExerciseFilter<F, S> {
    /// The units are those of a study session.
    StudySession(S),
    /// The units are those that pass a filter.
    UnitFilter(F),
}

/// Returns the exercise filter to use, which is either a unit filter or a
/// study session. A unit filter goes before a study session.
pub fn exercise_filter<F, S>(filter: Option<F>, study_session: Option<S>) -> (chosen: Option<
    ExerciseFilter<F, S>,
>)
    ensures
        chosen == match (filter, study_session) {
            (Some(filter), _) => Some(ExerciseFilter::<F, S>::UnitFilter(filter)),
            (None, Some(study_session)) => Some(
                ExerciseFilter::<F, S>::StudySession(study_session),
            ),
            (None, None) => None,
        },
{
    match filter {
        None => match study_session {
            Some(study_session) => Some(ExerciseFilter::StudySession(study_session)),
            None => None,
        },
        Some(filter) => Some(ExerciseFilter::UnitFilter(filter)),
    }
}

/// Filters out any empty ID from the given list.
pub fn filter_empty_ids(ids: &[Ustr]) -> (kept: Vec<Ustr>)
    ensures
        kept@ == ids@.filter(|id: Ustr| !spec_is_empty_id(id)),
{
    let ghost keep = |id: Ustr| !spec_is_empty_id(id);
    let mut kept: Vec<Ustr> = Vec::new();
    let mut i: usize = 0;
    while i < ids.len()
        invariant
            0 <= i <= ids@.len(),
            keep == |id: Ustr| !spec_is_empty_id(id),
            kept@ == ids@.take(i as int).filter(keep),
        decreases ids@.len() - i,
    {
        proof {
            reveal(Seq::filter);
            assert(ids@.take(i + 1).drop_last() =~= ids@.take(i as int));
        }
        if !is_empty_id(ids[i]) {
            kept.push(ids[i]);
        }
        i += 1;
    }
    assert(ids@.take(ids@.len() as int) =~= ids@);
    kept
}

/// The kind of a unit.
#[derive(Clone, Copy, Debug, PartialEq, Eq, Structural)]
pub enum UnitType {
    Course,
    Lesson,
    Exercise,
}

/// Why a list of units cannot be made a filter.
#[derive(Clone, Copy, Debug, PartialEq, Eq)]
pub enum FilterError {
    /// The kind of this unit is not known.
    MissingType(Ustr),
    /// This unit is not of the kind that the filter asks for.
    WrongType { id: Ustr, expected: UnitType },
}

impl UnitType {
    /// The name of the kind, as it stands in a sentence.
    pub open spec fn spec_noun(self) -> Seq<char> {
        match self {
            UnitType::Course => "course"@,
            UnitType::Lesson => "lesson"@,
            UnitType::Exercise => "exercise"@,
        }
    }

    /// The name of the kind, as it stands in a sentence.
    pub fn noun(self) -> (noun: &'static str)
        ensures
            noun@ == self.spec_noun(),
    {
        match self {
            UnitType::Course => "course",
            UnitType::Lesson => "lesson",
            UnitType::Exercise => "exercise",
        }
    }
}

impl FilterError {
    /// What the error says, in words.
    pub open spec fn spec_message(&self) -> Seq<char> {
        match self {
            FilterError::MissingType(id) => "missing type for unit with ID "@ + ustr_text(*id),
            FilterError::WrongType { id, expected } => "Unit with ID "@ + ustr_text(*id)
                + " is not a "@ + expected.spec_noun(),
        }
    }

    /// Says in words what went wrong.
    pub fn message(&self) -> (message: String)
        ensures
            message@ == self.spec_message(),
    {
        match self {
            FilterError::MissingType(id) => "missing type for unit with ID ".to_owned().concat(
                ustr_as_str(id),
            ),
            FilterError::WrongType { id, expected } => "Unit with ID ".to_owned().concat(
                ustr_as_str(id),
            ).concat(" is not a ").concat(expected.noun()),
        }
    }
}

/// Whether a unit of this kind, if the kind is known, can stand in a filter
/// on units of the expected kind.
pub open spec fn spec_unit_fits(
    id: Ustr,
    unit_type: Option<UnitType>,
    expected: UnitType,
) -> Result<(), FilterError> {
    match unit_type {
        None => Err(FilterError::MissingType(id)),
        Some(unit_type) => if unit_type == expected {
            Ok(())
        } else {
            Err(FilterError::WrongType { id, expected })
        },
    }
}

/// The verdict on a list of units with their kinds: that on the first unit
/// which does not fit, and `Ok` where all fit.
pub open spec fn spec_check_unit_types(
    units: Seq<(Ustr, Option<UnitType>)>,
    expected: UnitType,
) -> Result<(), FilterError>
    decreases units.len(),
{
    if units.len() == 0 {
        Ok(())
    } else if spec_unit_fits(units[0].0, units[0].1, expected) is Err {
        spec_unit_fits(units[0].0, units[0].1, expected)
    } else {
        spec_check_unit_types(units.drop_first(), expected)
    }
}

/// Checks that every unit of a list is known and of the expected kind, as a
/// filter on courses or on lessons asks. The first unit that is not decides
/// the error.
pub fn check_unit_types(units: &[(Ustr, Option<UnitType>)], expected: UnitType) -> (verdict: Result<
    (),
    FilterError,
>)
    ensures
        verdict == spec_check_unit_types(units@, expected),
{
    let mut i: usize = 0;
    assert(units@.skip(0) =~= units@);
    while i < units.len()
        invariant
            0 <= i <= units@.len(),
            spec_check_unit_types(units@, expected) == spec_check_unit_types(
                units@.skip(i as int),
                expected,
            ),
        decreases units@.len() - i,
    {
        assert(units@.skip(i as int).drop_first() =~= units@.skip(i + 1));
        let id = units[i].0;
        match units[i].1 {
            None => {
                return Err(FilterError::MissingType(id));
            },
            Some(unit_type) => {
                if unit_type != expected {
                    return Err(FilterError::WrongType { id, expected });
                }
            },
        }
        i += 1;
    }
    Ok(())
}

/// How the filters that make up a filter on metadata are combined.
#[derive(Clone, Copy, Debug, PartialEq, Eq, Structural)]
pub enum FilterOp {
    /// A unit passes if it passes all the filters.
    All,
    /// A unit passes if it passes at least one of the filters.
    Any,
}

/// Chooses how filters are combined from the two switches of the command
/// line: `any` asks for any, and all is the rule where nothing is asked.
pub fn filter_op(any: bool, all: bool) -> (op: FilterOp)
    ensures
        op == if any {
            FilterOp::Any
        } else {
            FilterOp::All
        },
{
    match (any, all) {
        (true, _) => FilterOp::Any,
        (false, false) | (_, true) => FilterOp::All,
    }
}

/// What a filter on metadata looks at.
#[derive(Clone, Copy, Debug, PartialEq, Eq, Structural)]
pub enum MetadataScope {
    /// The metadata of lessons.
    Lesson,
    /// The metadata of courses.
    Course,
}

/// A filter that keeps the units whose metadata, in the given scope, holds
/// the value under the key.
#[derive(Clone, Debug, PartialEq, Eq)]
pub struct MetadataFilter {
    pub scope: MetadataScope,
    pub key: String,
    pub value: String,
}

/// What a [`MetadataFilter`] holds, as text.
pub struct MetadataFilterView {
    pub scope: MetadataScope,
    pub key: Seq<char>,
    pub value: Seq<char>,
}

impl View for MetadataFilter {
    type V = MetadataFilterView;

    open spec fn view(&self) -> MetadataFilterView {
        MetadataFilterView { scope: self.scope, key: self.key@, value: self.value@ }
    }
}

impl DeepView for MetadataFilter {
    type V = MetadataFilterView;

    open spec fn deep_view(&self) -> MetadataFilterView {
        self@
    }
}

/// One filter in the given scope for each pair, in the order of the pairs.
pub open spec fn spec_scoped_filters(scope: MetadataScope, pairs: Seq<KeyValue>) -> Seq<
    MetadataFilterView,
> {
    Seq::new(
        pairs.len(),
        |i: int| MetadataFilterView { scope, key: pairs[i].key@, value: pairs[i].value@ },
    )
}

/// The pairs of a list that may not be given.
pub open spec fn spec_pairs(metadata: Option<&Vec<KeyValue>>) -> Seq<KeyValue> {
    match metadata {
        Some(pairs) => pairs@,
        None => Seq::empty(),
    }
}

/// The filters that lesson and course metadata stand for: those on lessons
/// first, then those on courses.
pub open spec fn spec_metadata_filters(
    lesson_metadata: Option<&Vec<KeyValue>>,
    course_metadata: Option<&Vec<KeyValue>>,
) -> Seq<MetadataFilterView> {
    spec_scoped_filters(MetadataScope::Lesson, spec_pairs(lesson_metadata)) + spec_scoped_filters(
        MetadataScope::Course,
        spec_pairs(course_metadata),
    )
}

/// Adds one filter in the given scope for each pair.
fn push_scoped_filters(
    filters: &mut Vec<MetadataFilter>,
    scope: MetadataScope,
    pairs: &Vec<KeyValue>,
)
    ensures
        final(filters).deep_view() == old(filters).deep_view() + spec_scoped_filters(
            scope,
            pairs@,
        ),
{
    let ghost before = filters.deep_view();
    let mut i: usize = 0;
    while i < pairs.len()
        invariant
            0 <= i <= pairs@.len(),
            filters.deep_view() == before + spec_scoped_filters(scope, pairs@.take(i as int)),
        decreases pairs@.len() - i,
    {
        let ghost made = filters.deep_view();
        let ghost next = MetadataFilterView {
            scope,
            key: pairs@[i as int].key@,
            value: pairs@[i as int].value@,
        };
        filters.push(
            MetadataFilter { scope, key: pairs[i].key.clone(), value: pairs[i].value.clone() },
        );
        assert(filters.deep_view() =~= made.push(next));
        i += 1;
    }
}

/// Lists the filters that make up a filter on metadata: one for each pair of
/// lesson metadata, then one for each pair of course metadata. How they are
/// combined is for the caller to say.
pub fn metadata_filters(
    lesson_metadata: Option<&Vec<KeyValue>>,
    course_metadata: Option<&Vec<KeyValue>>,
) -> (filters: Vec<MetadataFilter>)
    ensures
        filters.deep_view() == spec_metadata_filters(lesson_metadata, course_metadata),
{
    let mut filters: Vec<MetadataFilter> = Vec::new();
    match lesson_metadata {
        Some(pairs) => push_scoped_filters(&mut filters, MetadataScope::Lesson, pairs),
        None => {},
    }
    match course_metadata {
        Some(pairs) => push_scoped_filters(&mut filters, MetadataScope::Course, pairs),
        None => {},
    }
    filters
}

} // verus!
