//! The answers store: CRUD over answers, each tied to a parent question.

use crate::identifier::is_uuid_str;
use crate::models::{Answer, AnswerDetail, AnswerDetailView, DBError, FOREIGN_KEY_VIOLATION};
use vstd::prelude::*;

verus! {

/// Classifies a backend failure from answer insertion into the error
/// taxonomy. A relational backend enforces the parent reference with a
/// foreign-key constraint; its violation code means the referenced
/// question does not exist, which is the caller's input problem
/// (`InvalidUUID` carrying the offending reference). Any other failure —
/// or one with no SQLSTATE code at all — is an opaque storage failure.
pub fn classify_answer_insert_error(code: Option<String>, question_uuid: String) -> (r: DBError)
    ensures
        match code {
            Some(c) => {
                if c@ == FOREIGN_KEY_VIOLATION@ {
                    r == DBError::InvalidUUID(question_uuid)
                } else {
                    r is Other
                }
            },
            None => r is Other,
        },
{
    match code {
        Some(c) => {
            let fk = FOREIGN_KEY_VIOLATION.to_owned();
            if c == fk {
                DBError::InvalidUUID(question_uuid)
            } else {
                DBError::Other("Error creating answer".to_owned())
            }
        },
        None => DBError::Other("Error creating answer".to_owned()),
    }
}

/// Capability interface over a collection of answers.
///
/// `answers()` is the abstract state: the persisted answers in insertion
/// order. `question_uuids()` is the set of question identifiers that
/// exist in the backing store; answer creation must reference one of
/// them. `inv()` is backend-internal well-formedness.
///
/// Note what `question_uuids()` is not: answer operations never change
/// it, and nothing here says a persisted answer still references a live
/// question — deleting a question leaves its answers in place (orphans
/// are allowed; there is no cascade).
pub trait AnswersDao: Sized {
    /// Backend-internal well-formedness, preserved by every operation.
    spec fn inv(&self) -> bool;

    /// The persisted answers, in insertion order.
    spec fn answers(&self) -> Seq<AnswerDetailView>;

    /// The identifiers of the questions that exist in the backing store.
    spec fn question_uuids(&self) -> Set<Seq<char>>;

    /// Persists `answer` under a fresh identifier and a new creation
    /// timestamp and returns the stored detail. The referenced
    /// `question_uuid` must be well formed and must resolve to an
    /// existing question; either failure is `InvalidUUID` carrying the
    /// offending value, and nothing is persisted.
    fn create_answer(&mut self, answer: Answer) -> (r: Result<AnswerDetail, DBError>)
        requires
            old(self).inv(),
        ensures
            final(self).inv(),
            final(self).question_uuids() == old(self).question_uuids(),
            match r {
                Ok(d) => {
                    &&& is_uuid_str(answer@.question_uuid)
                    &&& old(self).question_uuids().contains(answer@.question_uuid)
                    &&& d@.question_uuid == answer@.question_uuid
                    &&& d@.content == answer@.content
                    &&& is_uuid_str(d@.answer_uuid)
                    &&& forall|i: int|
                        0 <= i < old(self).answers().len() ==> (#[trigger] old(
                            self,
                        ).answers()[i]).answer_uuid != d@.answer_uuid
                    &&& final(self).answers() == old(self).answers().push(d@)
                },
                Err(e) => {
                    &&& final(self).answers() == old(self).answers()
                    &&& match e {
                        DBError::InvalidUUID(u) => {
                            &&& u@ == answer@.question_uuid
                            &&& (!is_uuid_str(answer@.question_uuid) || !old(
                                self,
                            ).question_uuids().contains(answer@.question_uuid))
                        },
                        DBError::Other(_) => is_uuid_str(answer@.question_uuid) && old(
                            self,
                        ).question_uuids().contains(answer@.question_uuid),
                    }
                },
            },
    ;

    /// Returns the answers that reference the given question, in
    /// insertion order. A malformed identifier fails fast with
    /// `InvalidUUID`; a question with no answers yields an empty list.
    fn get_answers(&self, question_uuid: String) -> (r: Result<Vec<AnswerDetail>, DBError>)
        requires
            self.inv(),
        ensures
            match r {
                Ok(v) => {
                    &&& is_uuid_str(question_uuid@)
                    &&& v@.map_values(|d: AnswerDetail| d@) == self.answers().filter(
                        |a: AnswerDetailView| a.question_uuid == question_uuid@,
                    )
                },
                Err(e) => match e {
                    DBError::InvalidUUID(u) => u@ == question_uuid@ && !is_uuid_str(
                        question_uuid@,
                    ),
                    DBError::Other(_) => is_uuid_str(question_uuid@),
                },
            },
    ;

    /// Removes the answer with the given identifier, if any. A malformed
    /// identifier fails fast with `InvalidUUID`; a well-formed identifier
    /// that matches nothing is not an error (idempotent delete).
    fn delete_answer(&mut self, answer_uuid: String) -> (r: Result<(), DBError>)
        requires
            old(self).inv(),
        ensures
            final(self).inv(),
            final(self).question_uuids() == old(self).question_uuids(),
            match r {
                Ok(_) => {
                    &&& is_uuid_str(answer_uuid@)
                    &&& final(self).answers() == old(self).answers().filter(
                        |a: AnswerDetailView| a.answer_uuid != answer_uuid@,
                    )
                },
                Err(e) => {
                    &&& final(self).answers() == old(self).answers()
                    &&& match e {
                        DBError::InvalidUUID(u) => u@ == answer_uuid@ && !is_uuid_str(
                            answer_uuid@,
                        ),
                        DBError::Other(_) => is_uuid_str(answer_uuid@),
                    }
                },
            },
    ;

    /// Replaces the content of the answer with the given identifier,
    /// leaving its identifier, parent reference, and creation timestamp
    /// untouched — the incoming `question_uuid` is deliberately ignored —
    /// and returns the updated detail. A malformed identifier fails fast
    /// with `InvalidUUID`; a well-formed identifier that matches nothing
    /// is a storage failure (`Other`).
    fn update_answer(&mut self, updated_answer: Answer, answer_uuid: String) -> (r: Result<
        AnswerDetail,
        DBError,
    >)
        requires
            old(self).inv(),
        ensures
            final(self).inv(),
            final(self).question_uuids() == old(self).question_uuids(),
            match r {
                Ok(d) => {
                    &&& is_uuid_str(answer_uuid@)
                    &&& d@.answer_uuid == answer_uuid@
                    &&& d@.content == updated_answer@.content
                    &&& exists|j: int|
                        {
                            &&& 0 <= j < old(self).answers().len()
                            &&& (#[trigger] old(self).answers()[j]).answer_uuid == answer_uuid@
                            &&& d@.question_uuid == old(self).answers()[j].question_uuid
                            &&& d@.created_at == old(self).answers()[j].created_at
                            &&& final(self).answers() == old(self).answers().update(j, d@)
                        }
                },
                Err(e) => {
                    &&& final(self).answers() == old(self).answers()
                    &&& match e {
                        DBError::InvalidUUID(u) => u@ == answer_uuid@ && !is_uuid_str(
                            answer_uuid@,
                        ),
                        DBError::Other(_) => is_uuid_str(answer_uuid@),
                    }
                },
            },
    ;
}

} // verus!
