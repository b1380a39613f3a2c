//! The questions store: CRUD over questions behind a swappable backend.

use crate::identifier::is_uuid_str;
use crate::models::{DBError, Question, QuestionDetail, QuestionDetailView};
use vstd::prelude::*;

verus! {

/// Capability interface over a collection of questions.
///
/// `questions()` is the abstract state a backend maintains: the persisted
/// questions in insertion order. `inv()` is whatever internal
/// well-formedness the backend needs; every operation preserves it.
///
/// The contracts pin the error taxonomy down: a malformed identifier is
/// always rejected as `InvalidUUID` before any storage work (fail fast),
/// and `Other` is reserved for backend-level failures on well-formed
/// input.
pub trait QuestionsDao: Sized {
    /// Backend-internal well-formedness, preserved by every operation.
    spec fn inv(&self) -> bool;

    /// The persisted questions, in insertion order.
    spec fn questions(&self) -> Seq<QuestionDetailView>;

    /// Persists `question` under a fresh identifier and a new creation
    /// timestamp and returns the stored detail. Caller input can never be
    /// an invalid identifier here, so the only failure kind is `Other`.
    fn create_question(&mut self, question: Question) -> (r: Result<QuestionDetail, DBError>)
        requires
            old(self).inv(),
        ensures
            final(self).inv(),
            match r {
                Ok(d) => {
                    &&& d@.title == question@.title
                    &&& d@.description == question@.description
                    &&& is_uuid_str(d@.question_uuid)
                    &&& forall|i: int|
                        0 <= i < old(self).questions().len() ==> (#[trigger] old(
                            self,
                        ).questions()[i]).question_uuid != d@.question_uuid
                    &&& final(self).questions() == old(self).questions().push(d@)
                },
                Err(e) => e is Other && final(self).questions() == old(self).questions(),
            },
    ;

    /// Returns every persisted question, in insertion order.
    fn get_questions(&self) -> (r: Result<Vec<QuestionDetail>, DBError>)
        requires
            self.inv(),
        ensures
            match r {
                Ok(v) => v@.map_values(|d: QuestionDetail| d@) == self.questions(),
                Err(e) => e is Other,
            },
    ;

    /// Removes the question with the given identifier, if any. A
    /// malformed identifier fails fast with `InvalidUUID`; a well-formed
    /// identifier that matches nothing is not an error (idempotent
    /// delete).
    fn delete_question(&mut self, question_uuid: String) -> (r: Result<(), DBError>)
        requires
            old(self).inv(),
        ensures
            final(self).inv(),
            match r {
                Ok(_) => {
                    &&& is_uuid_str(question_uuid@)
                    &&& final(self).questions() == old(self).questions().filter(
                        |q: QuestionDetailView| q.question_uuid != question_uuid@,
                    )
                },
                Err(e) => {
                    &&& final(self).questions() == old(self).questions()
                    &&& match e {
                        DBError::InvalidUUID(u) => u@ == question_uuid@ && !is_uuid_str(
                            question_uuid@,
                        ),
                        DBError::Other(_) => is_uuid_str(question_uuid@),
                    }
                },
            },
    ;

    /// Replaces the title and description of the question with the given
    /// identifier, leaving its identifier and creation timestamp
    /// untouched, and returns the updated detail. A malformed identifier
    /// fails fast with `InvalidUUID`; a well-formed identifier that
    /// matches nothing is a storage failure (`Other`).
    fn update_question(&mut self, question: Question, question_uuid: String) -> (r: Result<
        QuestionDetail,
        DBError,
    >)
        requires
            old(self).inv(),
        ensures
            final(self).inv(),
            match r {
                Ok(d) => {
                    &&& is_uuid_str(question_uuid@)
                    &&& d@.question_uuid == question_uuid@
                    &&& d@.title == question@.title
                    &&& d@.description == question@.description
                    &&& exists|j: int|
                        {
                            &&& 0 <= j < old(self).questions().len()
                            &&& (#[trigger] old(self).questions()[j]).question_uuid
                                == question_uuid@
                            &&& d@.created_at == old(self).questions()[j].created_at
                            &&& final(self).questions() == old(self).questions().update(j, d@)
                        }
                },
                Err(e) => {
                    &&& final(self).questions() == old(self).questions()
                    &&& match e {
                        DBError::InvalidUUID(u) => u@ == question_uuid@ && !is_uuid_str(
                            question_uuid@,
                        ),
                        DBError::Other(_) => is_uuid_str(question_uuid@),
                    }
                },
            },
    ;
}

} // verus!
