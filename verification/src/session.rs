//! The state of a practice session: the batch of exercises at hand, the one
//! that is current, and the score that waits to be submitted for it.

use vstd::prelude::*;
use ustr::Ustr;
use vstd::string::StringExecFns;
use crate::data::{ustr_as_str, ustr_text, ExerciseManifest};
use crate::text::{decimal, spec_decimal};

verus! {

/// The score a student gives to an exercise, from one (lowest) to five.
#[derive(Clone, Copy, Debug, PartialEq, Eq, Structural)]
pub enum MasteryScore {
    One,
    Two,
    Three,
    Four,
    Five,
}

/// What can go wrong in a session.
#[derive(Clone, Copy, Debug, PartialEq, Eq, Structural)]
pub enum SessionError {
    /// There is no current exercise.
    NoCurrentExercise,
    /// The number is not a score from one to five.
    InvalidScore(u8),
}

impl SessionError {
    /// What the error says, in words.
    pub open spec fn spec_message(&self) -> Seq<char> {
        match self {
            SessionError::NoCurrentExercise => "cannot get current exercise"@,
            SessionError::InvalidScore(score) => "invalid score "@ + spec_decimal(*score),
        }
    }

    /// Says in words what went wrong.
    pub fn message(&self) -> (message: String)
        ensures
            message@ == self.spec_message(),
    {
        match self {
            SessionError::NoCurrentExercise => "cannot get current exercise".to_owned(),
            SessionError::InvalidScore(score) => "invalid score ".to_owned().concat(
                decimal(*score).as_str(),
            ),
        }
    }
}

/// The score that a number stands for.
pub open spec fn spec_mastery_score(score: u8) -> Option<MasteryScore> {
    if score == 1 {
        Some(MasteryScore::One)
    } else if score == 2 {
        Some(MasteryScore::Two)
    } else if score == 3 {
        Some(MasteryScore::Three)
    } else if score == 4 {
        Some(MasteryScore::Four)
    } else if score == 5 {
        Some(MasteryScore::Five)
    } else {
        None
    }
}

impl MasteryScore {
    /// The number that stands for the score.
    pub open spec fn spec_value(self) -> u8 {
        match self {
            MasteryScore::One => 1,
            MasteryScore::Two => 2,
            MasteryScore::Three => 3,
            MasteryScore::Four => 4,
            MasteryScore::Five => 5,
        }
    }

    /// The number that stands for the score.
    #[verifier::when_used_as_spec(spec_value)]
    pub fn value(self) -> (number: u8)
        ensures
            number == self.spec_value(),
            spec_mastery_score(number) == Some(self),
    {
        match self {
            MasteryScore::One => 1,
            MasteryScore::Two => 2,
            MasteryScore::Three => 3,
            MasteryScore::Four => 4,
            MasteryScore::Five => 5,
        }
    }

    /// The score that a number from one to five stands for.
    pub fn from_number(score: u8) -> (parsed: Result<MasteryScore, SessionError>)
        ensures
            parsed == match spec_mastery_score(score) {
                Some(score) => Ok::<MasteryScore, SessionError>(score),
                None => Err(SessionError::InvalidScore(score)),
            },
    {
        match score {
            1 => Ok(MasteryScore::One),
            2 => Ok(MasteryScore::Two),
            3 => Ok(MasteryScore::Three),
            4 => Ok(MasteryScore::Four),
            5 => Ok(MasteryScore::Five),
            _ => Err(SessionError::InvalidScore(score)),
        }
    }
}

/// Whether an identifier is the empty text.
pub open spec fn spec_is_empty_id(id: Ustr) -> bool {
    ustr_text(id).len() == 0
}

/// Whether an identifier is the empty text.
pub fn is_empty_id(id: Ustr) -> (empty: bool)
    ensures
        empty == spec_is_empty_id(id),
{
    ustr_as_str(&id).unicode_len() == 0
}

/// The identifier to use where one may be given: the given one unless it is
/// empty, else the current one, which must be there and not be empty.
pub open spec fn spec_id_or_current(given: Ustr, current: Option<Ustr>) -> Result<
    Ustr,
    SessionError,
> {
    if !spec_is_empty_id(given) {
        Ok(given)
    } else {
        match current {
            Some(current) if !spec_is_empty_id(current) => Ok(current),
            _ => Err(SessionError::NoCurrentExercise),
        }
    }
}

/// The batch of exercises of a session, with the place of the current one
/// and the score that was given to it and is not yet submitted.
pub struct Session {
    batch: Vec<ExerciseManifest>,
    batch_index: usize,
    current_score: Option<MasteryScore>,
}

impl Session {
    #[verifier::type_invariant]
    spec fn in_bounds(&self) -> bool {
        self.batch_index <= self.batch@.len()
    }

    /// The exercises of the batch, in order.
    pub closed spec fn batch(&self) -> Seq<ExerciseManifest> {
        self.batch@
    }

    /// The place of the current exercise in the batch. It is the length of
    /// the batch once the batch is used up.
    pub closed spec fn batch_index(&self) -> nat {
        self.batch_index as nat
    }

    /// The score given to the current exercise and not yet submitted.
    pub closed spec fn current_score(&self) -> Option<MasteryScore> {
        self.current_score
    }

    /// The current exercise: none once the batch is used up.
    pub open spec fn spec_current_exercise(&self) -> Option<ExerciseManifest> {
        if self.batch_index() < self.batch().len() {
            Some(self.batch()[self.batch_index() as int])
        } else {
            None
        }
    }

    /// What is to be submitted before the session moves on: the current
    /// exercise with its score, where a score was given.
    pub open spec fn spec_pending_score(&self) -> Result<
        Option<(Ustr, MasteryScore)>,
        SessionError,
    > {
        match self.current_score() {
            None => Ok(None),
            Some(score) => match self.spec_current_exercise() {
                Some(exercise) => Ok(Some((exercise.id, score))),
                None => Err(SessionError::NoCurrentExercise),
            },
        }
    }

    /// A session with no batch and no score.
    pub fn new() -> (session: Session)
        ensures
            session.batch().len() == 0,
            session.batch_index() == 0,
            session.current_score() is None,
    {
        Session { batch: Vec::new(), batch_index: 0, current_score: None }
    }

    /// Returns the current exercise.
    pub fn current_exercise(&self) -> (exercise: Result<&ExerciseManifest, SessionError>)
        ensures
            match exercise {
                Ok(exercise) => self.spec_current_exercise() == Some(*exercise),
                Err(error) => self.spec_current_exercise() is None && error
                    == SessionError::NoCurrentExercise,
            },
    {
        if self.batch_index < self.batch.len() {
            Ok(&self.batch[self.batch_index])
        } else {
            Err(SessionError::NoCurrentExercise)
        }
    }

    /// Returns the place of the current exercise in the batch. It never lies
    /// beyond the end of the batch.
    pub fn index(&self) -> (index: usize)
        ensures
            index == self.batch_index(),
            index <= self.batch().len(),
    {
        proof {
            use_type_invariant(self);
        }
        self.batch_index
    }

    /// Returns the score given to the current exercise, if any.
    pub fn score(&self) -> (score: Option<MasteryScore>)
        ensures
            score == self.current_score(),
    {
        self.current_score
    }

    /// Assigns the given score to the current exercise. The score can be
    /// changed anytime before the next exercise is requested. A number that
    /// is no score changes nothing.
    pub fn record_score(&mut self, score: u8) -> (recorded: Result<(), SessionError>)
        ensures
            final(self).batch() == old(self).batch(),
            final(self).batch_index() == old(self).batch_index(),
            match spec_mastery_score(score) {
                Some(mastery_score) => recorded is Ok && final(self).current_score() == Some(
                    mastery_score,
                ),
                None => recorded == Err::<(), SessionError>(SessionError::InvalidScore(score))
                    && final(self).current_score() == old(self).current_score(),
            },
    {
        proof {
            use_type_invariant(&*self);
        }
        match MasteryScore::from_number(score) {
            Ok(mastery_score) => {
                self.current_score = Some(mastery_score);
                Ok(())
            },
            Err(error) => Err(error),
        }
    }

    /// Tells what is to be submitted for the current exercise: nothing where
    /// no score was given; an error where a score was given and there is no
    /// current exercise.
    pub fn pending_score(&self) -> (pending: Result<Option<(Ustr, MasteryScore)>, SessionError>)
        ensures
            pending == self.spec_pending_score(),
    {
        match self.current_score {
            None => Ok(None),
            Some(score) => match self.current_exercise() {
                Ok(exercise) => Ok(Some((exercise.id, score))),
                Err(error) => Err(error),
            },
        }
    }

    /// Moves on to the next exercise of the batch and forgets the score.
    /// Returns whether the batch is used up, so that a new one is needed.
    pub fn advance(&mut self) -> (used_up: bool)
        ensures
            final(self).batch() == old(self).batch(),
            final(self).current_score() is None,
            final(self).batch_index() == if old(self).batch_index() < old(self).batch().len() {
                old(self).batch_index() + 1
            } else {
                old(self).batch_index()
            },
            used_up == (final(self).batch_index() == final(self).batch().len()),
            used_up == final(self).spec_current_exercise() is None,
    {
        proof {
            use_type_invariant(&*self);
        }
        self.current_score = None;
        if self.batch_index < self.batch.len() {
            self.batch_index = self.batch_index + 1;
        }
        self.batch_index == self.batch.len()
    }

    /// Takes a new batch; its first exercise is the current one.
    pub fn refill(&mut self, batch: Vec<ExerciseManifest>)
        ensures
            final(self).batch() == batch@,
            final(self).batch_index() == 0,
            final(self).current_score() == old(self).current_score(),
    {
        self.batch_index = 0;
        self.batch = batch;
    }

    /// Resets the batch of exercises: no batch, no current exercise and no
    /// score.
    pub fn reset_batch(&mut self)
        ensures
            final(self).batch().len() == 0,
            final(self).batch_index() == 0,
            final(self).current_score() is None,
    {
        self.batch_index = 0;
        self.batch = Vec::new();
        self.current_score = None;
    }

    /// Returns the given course ID or the current exercise's course ID if
    /// the given ID is empty.
    pub fn course_id_or_current(&self, course_id: Ustr) -> (id: Result<Ustr, SessionError>)
        ensures
            id == spec_id_or_current(
                course_id,
                match self.spec_current_exercise() {
                    Some(exercise) => Some(exercise.course_id),
                    None => None,
                },
            ),
    {
        if !is_empty_id(course_id) {
            return Ok(course_id);
        }
        match self.current_exercise() {
            Ok(exercise) => {
                if is_empty_id(exercise.course_id) {
                    Err(SessionError::NoCurrentExercise)
                } else {
                    Ok(exercise.course_id)
                }
            },
            Err(error) => Err(error),
        }
    }

    /// Returns the given lesson ID or the current exercise's lesson ID if
    /// the given ID is empty.
    pub fn lesson_id_or_current(&self, lesson_id: Ustr) -> (id: Result<Ustr, SessionError>)
        ensures
            id == spec_id_or_current(
                lesson_id,
                match self.spec_current_exercise() {
                    Some(exercise) => Some(exercise.lesson_id),
                    None => None,
                },
            ),
    {
        if !is_empty_id(lesson_id) {
            return Ok(lesson_id);
        }
        match self.current_exercise() {
            Ok(exercise) => {
                if is_empty_id(exercise.lesson_id) {
                    Err(SessionError::NoCurrentExercise)
                } else {
                    Ok(exercise.lesson_id)
                }
            },
            Err(error) => Err(error),
        }
    }

    /// Returns the given exercise ID or the current exercise's ID if the
    /// given ID is empty.
    pub fn exercise_id_or_current(&self, exercise_id: Ustr) -> (id: Result<Ustr, SessionError>)
        ensures
            id == if !spec_is_empty_id(exercise_id) {
                Ok::<Ustr, SessionError>(exercise_id)
            } else {
                match self.spec_current_exercise() {
                    Some(exercise) => Ok::<Ustr, SessionError>(exercise.id),
                    None => Err(SessionError::NoCurrentExercise),
                }
            },
    {
        if is_empty_id(exercise_id) {
            match self.current_exercise() {
                Ok(exercise) => Ok(exercise.id),
                Err(error) => Err(error),
            }
        } else {
            Ok(exercise_id)
        }
    }
}

} // verus!
