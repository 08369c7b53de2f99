use ustr::Ustr;

use trane_cli::cli::KeyValue;
use trane_cli::data::{BasicAsset, ExerciseAsset, ExerciseManifest, ExerciseType};
use trane_cli::filter::{
    check_unit_types, exercise_filter, filter_empty_ids, metadata_filters, ExerciseFilter,
    FilterError, MetadataFilter, MetadataScope, UnitType,
};
use trane_cli::session::{is_empty_id, MasteryScore, Session, SessionError};

fn exercise(course: &str, lesson: &str, id: &str) -> ExerciseManifest {
    ExerciseManifest {
        id: Ustr::from(id),
        lesson_id: Ustr::from(lesson),
        course_id: Ustr::from(course),
        name: "Exercise Name".to_string(),
        description: None,
        exercise_type: ExerciseType::Procedural,
        exercise_asset: ExerciseAsset::BasicAsset(BasicAsset::InlinedAsset {
            content: "content".to_string(),
        }),
    }
}

fn batch() -> Vec<ExerciseManifest> {
    vec![exercise("c", "c::l", "c::l::e1"), exercise("c", "c::l", "c::l::e2")]
}

fn pairs(values: &[(&str, &str)]) -> Vec<KeyValue> {
    values
        .iter()
        .map(|(key, value)| KeyValue { key: key.to_string(), value: value.to_string() })
        .collect()
}

#[test]
fn scores_go_from_one_to_five() {
    assert_eq!(MasteryScore::from_number(1), Ok(MasteryScore::One));
    assert_eq!(MasteryScore::from_number(2), Ok(MasteryScore::Two));
    assert_eq!(MasteryScore::from_number(3), Ok(MasteryScore::Three));
    assert_eq!(MasteryScore::from_number(4), Ok(MasteryScore::Four));
    assert_eq!(MasteryScore::from_number(5), Ok(MasteryScore::Five));
    for number in [0u8, 6, 7, 100, 255] {
        assert_eq!(MasteryScore::from_number(number), Err(SessionError::InvalidScore(number)));
    }
    for number in 1..=5u8 {
        assert_eq!(MasteryScore::from_number(number).unwrap().value(), number);
    }
}

#[test]
fn session_errors_say_what_went_wrong() {
    assert_eq!(SessionError::NoCurrentExercise.message(), "cannot get current exercise");
    assert_eq!(SessionError::InvalidScore(0).message(), "invalid score 0");
    assert_eq!(SessionError::InvalidScore(42).message(), "invalid score 42");
    assert_eq!(SessionError::InvalidScore(255).message(), "invalid score 255");
}

#[test]
fn new_session_has_no_exercise() {
    let session = Session::new();
    assert_eq!(session.current_exercise(), Err(SessionError::NoCurrentExercise));
    assert_eq!(session.index(), 0);
    assert_eq!(session.score(), None);
    assert_eq!(session.pending_score(), Ok(None));
}

#[test]
fn session_walks_through_its_batch() {
    let mut session = Session::new();
    // The first request finds nothing at hand and asks for a batch.
    assert!(session.advance());
    session.refill(batch());
    assert_eq!(session.current_exercise().unwrap().id, Ustr::from("c::l::e1"));
    assert!(!session.advance());
    assert_eq!(session.index(), 1);
    assert_eq!(session.current_exercise().unwrap().id, Ustr::from("c::l::e2"));
    assert!(session.advance());
    assert_eq!(session.index(), 2);
    assert_eq!(session.current_exercise(), Err(SessionError::NoCurrentExercise));
    // Without a new batch the session stays at the end.
    assert!(session.advance());
    assert_eq!(session.index(), 2);
    session.refill(vec![]);
    assert_eq!(session.index(), 0);
    assert_eq!(session.current_exercise(), Err(SessionError::NoCurrentExercise));
    assert!(session.advance());
}

#[test]
fn score_waits_until_the_session_moves_on() {
    let mut session = Session::new();
    session.refill(batch());
    assert_eq!(session.record_score(4), Ok(()));
    assert_eq!(session.score(), Some(MasteryScore::Four));
    assert_eq!(session.record_score(9), Err(SessionError::InvalidScore(9)));
    assert_eq!(session.score(), Some(MasteryScore::Four));
    assert_eq!(session.record_score(2), Ok(()));
    assert_eq!(session.pending_score(), Ok(Some((Ustr::from("c::l::e1"), MasteryScore::Two))));
    assert!(!session.advance());
    assert_eq!(session.score(), None);
    assert_eq!(session.pending_score(), Ok(None));
}

#[test]
fn score_without_exercise_cannot_be_submitted() {
    let mut session = Session::new();
    assert_eq!(session.record_score(3), Ok(()));
    assert_eq!(session.pending_score(), Err(SessionError::NoCurrentExercise));
    session.refill(batch());
    assert_eq!(session.pending_score(), Ok(Some((Ustr::from("c::l::e1"), MasteryScore::Three))));
    session.reset_batch();
    assert_eq!(session.score(), None);
    assert_eq!(session.index(), 0);
    assert_eq!(session.current_exercise(), Err(SessionError::NoCurrentExercise));
}

#[test]
fn given_id_goes_before_the_current_one() {
    let empty = Ustr::from("");
    let mut session = Session::new();
    let none = Err(SessionError::NoCurrentExercise);
    assert_eq!(session.course_id_or_current(empty), none);
    assert_eq!(session.lesson_id_or_current(empty), none);
    assert_eq!(session.exercise_id_or_current(empty), none);
    assert_eq!(session.course_id_or_current(Ustr::from("x")), Ok(Ustr::from("x")));
    assert_eq!(session.lesson_id_or_current(Ustr::from("x")), Ok(Ustr::from("x")));
    assert_eq!(session.exercise_id_or_current(Ustr::from("x")), Ok(Ustr::from("x")));

    session.refill(batch());
    assert_eq!(session.course_id_or_current(empty), Ok(Ustr::from("c")));
    assert_eq!(session.lesson_id_or_current(empty), Ok(Ustr::from("c::l")));
    assert_eq!(session.exercise_id_or_current(empty), Ok(Ustr::from("c::l::e1")));
    assert_eq!(session.course_id_or_current(Ustr::from("x")), Ok(Ustr::from("x")));

    // A current exercise without a course or lesson is no help.
    session.refill(vec![exercise("", "", "")]);
    assert_eq!(session.course_id_or_current(empty), none);
    assert_eq!(session.lesson_id_or_current(empty), none);
    assert_eq!(session.exercise_id_or_current(empty), Ok(empty));
}

#[test]
fn empty_ids_are_filtered_out() {
    let ids = [Ustr::from(""), Ustr::from("a"), Ustr::from(""), Ustr::from("b"), Ustr::from("a")];
    assert_eq!(filter_empty_ids(&ids), vec![Ustr::from("a"), Ustr::from("b"), Ustr::from("a")]);
    assert!(filter_empty_ids(&[]).is_empty());
    assert!(filter_empty_ids(&[Ustr::from("")]).is_empty());
    assert!(is_empty_id(Ustr::from("")));
    assert!(!is_empty_id(Ustr::from(" ")));
}

#[test]
fn unit_filter_goes_before_study_session() {
    assert_eq!(exercise_filter(Some("f"), Some(1)), Some(ExerciseFilter::UnitFilter("f")));
    assert_eq!(exercise_filter(Some("f"), None::<i32>), Some(ExerciseFilter::UnitFilter("f")));
    assert_eq!(exercise_filter(None::<&str>, Some(1)), Some(ExerciseFilter::StudySession(1)));
    assert_eq!(exercise_filter(None::<&str>, None::<i32>), None);
}

#[test]
fn filter_units_must_be_of_the_right_kind() {
    let a = Ustr::from("a");
    let b = Ustr::from("b");
    let c = Ustr::from("c");
    let course = Some(UnitType::Course);
    assert_eq!(check_unit_types(&[], UnitType::Course), Ok(()));
    assert_eq!(check_unit_types(&[(a, course), (b, course)], UnitType::Course), Ok(()));
    assert_eq!(
        check_unit_types(&[(a, course), (b, Some(UnitType::Lesson)), (c, None)], UnitType::Course),
        Err(FilterError::WrongType { id: b, expected: UnitType::Course })
    );
    assert_eq!(
        check_unit_types(&[(a, course), (b, None), (c, Some(UnitType::Lesson))], UnitType::Course),
        Err(FilterError::MissingType(b))
    );
    assert_eq!(
        check_unit_types(&[(a, course)], UnitType::Lesson),
        Err(FilterError::WrongType { id: a, expected: UnitType::Lesson })
    );
    assert_eq!(
        check_unit_types(&[(a, Some(UnitType::Exercise))], UnitType::Exercise),
        Ok(())
    );
}

#[test]
fn filter_errors_say_what_went_wrong() {
    let id = Ustr::from("course::lesson");
    assert_eq!(
        FilterError::MissingType(id).message(),
        "missing type for unit with ID course::lesson"
    );
    assert_eq!(
        FilterError::WrongType { id, expected: UnitType::Course }.message(),
        "Unit with ID course::lesson is not a course"
    );
    assert_eq!(
        FilterError::WrongType { id, expected: UnitType::Lesson }.message(),
        "Unit with ID course::lesson is not a lesson"
    );
    assert_eq!(UnitType::Exercise.noun(), "exercise");
}

#[test]
fn metadata_filters_list_lessons_then_courses() {
    let lessons = pairs(&[("key", "C"), ("level", "1")]);
    let courses = pairs(&[("genre", "jazz")]);
    let filter = |scope, key: &str, value: &str| MetadataFilter {
        scope,
        key: key.to_string(),
        value: value.to_string(),
    };
    assert_eq!(
        metadata_filters(Some(&lessons), Some(&courses)),
        vec![
            filter(MetadataScope::Lesson, "key", "C"),
            filter(MetadataScope::Lesson, "level", "1"),
            filter(MetadataScope::Course, "genre", "jazz"),
        ]
    );
    assert_eq!(
        metadata_filters(None, Some(&courses)),
        vec![filter(MetadataScope::Course, "genre", "jazz")]
    );
    assert_eq!(
        metadata_filters(Some(&courses), None),
        vec![filter(MetadataScope::Lesson, "genre", "jazz")]
    );
    assert_eq!(metadata_filters(None, None), vec![]);
    assert_eq!(metadata_filters(Some(&vec![]), Some(&vec![])), vec![]);
}
