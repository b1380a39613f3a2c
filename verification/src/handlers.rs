//! Request-handling layer over the stores.
//!
//! These functions are what a transport layer calls once it has decoded a
//! request body: they invoke the store operation and translate the error
//! taxonomy into `HandlerError` — a malformed or unresolvable identifier
//! becomes a client-correctable `BadRequest`, every backend failure an
//! `InternalError`. `APIError` is the transport-facing twin of
//! `HandlerError`; mapping either variant onto a status code is the
//! transport's business, not this layer's.

use crate::identifier::is_uuid_str;
use crate::models::{
    Answer, AnswerDetail, AnswerDetailView, DBError, Question, QuestionDetail, QuestionDetailView,
    QuestionId, AnswerId, UpdateRequest,
};
use crate::persistance::answers_dao::AnswersDao;
use crate::persistance::questions_dao::QuestionsDao;
use vstd::prelude::*;

verus! {

/// How a store failure is reported to the transport layer: a
/// client-correctable input problem, or a server-side fault.
#[derive(Debug)]
pub enum HandlerError {
    BadRequest(String),
    InternalError(String),
}

/// The transport-facing error shape; a thin twin of [`HandlerError`].
#[derive(Debug)]
pub enum APIError {
    BadRequest(String),
    InternalError(String),
}

impl From<HandlerError> for APIError {
    fn from(value: HandlerError) -> (r: Self) {
        match value {
            HandlerError::BadRequest(s) => Self::BadRequest(s),
            HandlerError::InternalError(s) => Self::InternalError(s),
        }
    }
}

impl vstd::std_specs::convert::FromSpecImpl<HandlerError> for APIError {
    open spec fn obeys_from_spec() -> bool {
        true
    }

    open spec fn from_spec(t: HandlerError) -> Self {
        match t {
            HandlerError::BadRequest(s) => APIError::BadRequest(s),
            HandlerError::InternalError(s) => APIError::InternalError(s),
        }
    }
}

/// Translates a store failure: an invalid identifier is the caller's to
/// correct, everything else is a server-side fault.
fn to_handler_error(err: DBError) -> (r: HandlerError)
    ensures
        match err {
            DBError::InvalidUUID(s) => r == HandlerError::BadRequest(s),
            DBError::Other(s) => r == HandlerError::InternalError(s),
        },
{
    match err {
        DBError::InvalidUUID(s) => HandlerError::BadRequest(s),
        DBError::Other(s) => HandlerError::InternalError(s),
    }
}

/// Creates a question and returns its persisted detail.
pub fn create_question<D: QuestionsDao>(question: Question, questions_dao: &mut D) -> (r: Result<
    QuestionDetail,
    HandlerError,
>)
    requires
        old(questions_dao).inv(),
    ensures
        final(questions_dao).inv(),
        match r {
            Ok(d) => {
                &&& d@.title == question@.title
                &&& d@.description == question@.description
                &&& is_uuid_str(d@.question_uuid)
                &&& forall|i: int|
                    0 <= i < old(questions_dao).questions().len() ==> (#[trigger] old(
                        questions_dao,
                    ).questions()[i]).question_uuid != d@.question_uuid
                &&& final(questions_dao).questions() == old(questions_dao).questions().push(d@)
            },
            Err(e) => e is InternalError && final(questions_dao).questions() == old(
                questions_dao,
            ).questions(),
        },
{
    match questions_dao.create_question(question) {
        Ok(d) => Ok(d),
        Err(e) => Err(to_handler_error(e)),
    }
}

/// Returns every persisted question.
pub fn read_questions<D: QuestionsDao>(questions_dao: &D) -> (r: Result<
    Vec<QuestionDetail>,
    HandlerError,
>)
    requires
        questions_dao.inv(),
    ensures
        match r {
            Ok(v) => v@.map_values(|d: QuestionDetail| d@) == questions_dao.questions(),
            Err(e) => e is InternalError,
        },
{
    match questions_dao.get_questions() {
        Ok(v) => Ok(v),
        Err(e) => Err(to_handler_error(e)),
    }
}

/// Deletes the question named by `question_uuid`, tolerating an
/// identifier that matches nothing.
pub fn delete_question<D: QuestionsDao>(question_uuid: QuestionId, questions_dao: &mut D) -> (r:
    Result<(), HandlerError>)
    requires
        old(questions_dao).inv(),
    ensures
        final(questions_dao).inv(),
        match r {
            Ok(_) => {
                &&& is_uuid_str(question_uuid@)
                &&& final(questions_dao).questions() == old(questions_dao).questions().filter(
                    |q: QuestionDetailView| q.question_uuid != question_uuid@,
                )
            },
            Err(e) => {
                &&& final(questions_dao).questions() == old(questions_dao).questions()
                &&& match e {
                    HandlerError::BadRequest(u) => u@ == question_uuid@ && !is_uuid_str(
                        question_uuid@,
                    ),
                    HandlerError::InternalError(_) => is_uuid_str(question_uuid@),
                }
            },
        },
{
    match questions_dao.delete_question(question_uuid.question_uuid) {
        Ok(_) => Ok(()),
        Err(e) => Err(to_handler_error(e)),
    }
}

/// Replaces the title and description of the question named in the
/// request, keeping its identity and creation timestamp.
pub fn update_question<D: QuestionsDao>(
    update_request: UpdateRequest<Question>,
    questions_dao: &mut D,
) -> (r: Result<QuestionDetail, HandlerError>)
    requires
        old(questions_dao).inv(),
    ensures
        final(questions_dao).inv(),
        match r {
            Ok(d) => {
                &&& is_uuid_str(update_request.uuid@)
                &&& d@.question_uuid == update_request.uuid@
                &&& d@.title == update_request.updated_entity@.title
                &&& d@.description == update_request.updated_entity@.description
                &&& exists|j: int|
                    {
                        &&& 0 <= j < old(questions_dao).questions().len()
                        &&& (#[trigger] old(questions_dao).questions()[j]).question_uuid
                            == update_request.uuid@
                        &&& d@.created_at == old(questions_dao).questions()[j].created_at
                        &&& final(questions_dao).questions() == old(
                            questions_dao,
                        ).questions().update(j, d@)
                    }
            },
            Err(e) => {
                &&& final(questions_dao).questions() == old(questions_dao).questions()
                &&& match e {
                    HandlerError::BadRequest(u) => u@ == update_request.uuid@ && !is_uuid_str(
                        update_request.uuid@,
                    ),
                    HandlerError::InternalError(_) => is_uuid_str(update_request.uuid@),
                }
            },
        },
{
    let UpdateRequest { uuid, updated_entity } = update_request;
    match questions_dao.update_question(updated_entity, uuid) {
        Ok(d) => Ok(d),
        Err(e) => Err(to_handler_error(e)),
    }
}

/// Creates an answer under an existing question and returns its persisted
/// detail; an unresolvable or malformed parent reference is the caller's
/// to correct.
pub fn create_answer<D: AnswersDao>(answer: Answer, answers_dao: &mut D) -> (r: Result<
    AnswerDetail,
    HandlerError,
>)
    requires
        old(answers_dao).inv(),
    ensures
        final(answers_dao).inv(),
        final(answers_dao).question_uuids() == old(answers_dao).question_uuids(),
        match r {
            Ok(d) => {
                &&& is_uuid_str(answer@.question_uuid)
                &&& old(answers_dao).question_uuids().contains(answer@.question_uuid)
                &&& d@.question_uuid == answer@.question_uuid
                &&& d@.content == answer@.content
                &&& is_uuid_str(d@.answer_uuid)
                &&& forall|i: int|
                    0 <= i < old(answers_dao).answers().len() ==> (#[trigger] old(
                        answers_dao,
                    ).answers()[i]).answer_uuid != d@.answer_uuid
                &&& final(answers_dao).answers() == old(answers_dao).answers().push(d@)
            },
            Err(e) => {
                &&& final(answers_dao).answers() == old(answers_dao).answers()
                &&& match e {
                    HandlerError::BadRequest(u) => {
                        &&& u@ == answer@.question_uuid
                        &&& (!is_uuid_str(answer@.question_uuid) || !old(
                            answers_dao,
                        ).question_uuids().contains(answer@.question_uuid))
                    },
                    HandlerError::InternalError(_) => is_uuid_str(answer@.question_uuid) && old(
                        answers_dao,
                    ).question_uuids().contains(answer@.question_uuid),
                }
            },
        },
{
    match answers_dao.create_answer(answer) {
        Ok(d) => Ok(d),
        Err(e) => Err(to_handler_error(e)),
    }
}

/// Returns the answers attached to the given question, in insertion
/// order.
pub fn read_answers<D: AnswersDao>(question_uuid: QuestionId, answers_dao: &D) -> (r: Result<
    Vec<AnswerDetail>,
    HandlerError,
>)
    requires
        answers_dao.inv(),
    ensures
        match r {
            Ok(v) => {
                &&& is_uuid_str(question_uuid@)
                &&& v@.map_values(|d: AnswerDetail| d@) == answers_dao.answers().filter(
                    |a: AnswerDetailView| a.question_uuid == question_uuid@,
                )
            },
            Err(e) => match e {
                HandlerError::BadRequest(u) => u@ == question_uuid@ && !is_uuid_str(
                    question_uuid@,
                ),
                HandlerError::InternalError(_) => is_uuid_str(question_uuid@),
            },
        },
{
    match answers_dao.get_answers(question_uuid.question_uuid) {
        Ok(v) => Ok(v),
        Err(e) => Err(to_handler_error(e)),
    }
}

/// Deletes the answer named by `answer_uuid`, tolerating an identifier
/// that matches nothing.
pub fn delete_answer<D: AnswersDao>(answer_uuid: AnswerId, answers_dao: &mut D) -> (r: Result<
    (),
    HandlerError,
>)
    requires
        old(answers_dao).inv(),
    ensures
        final(answers_dao).inv(),
        final(answers_dao).question_uuids() == old(answers_dao).question_uuids(),
        match r {
            Ok(_) => {
                &&& is_uuid_str(answer_uuid@)
                &&& final(answers_dao).answers() == old(answers_dao).answers().filter(
                    |a: AnswerDetailView| a.answer_uuid != answer_uuid@,
                )
            },
            Err(e) => {
                &&& final(answers_dao).answers() == old(answers_dao).answers()
                &&& match e {
                    HandlerError::BadRequest(u) => u@ == answer_uuid@ && !is_uuid_str(
                        answer_uuid@,
                    ),
                    HandlerError::InternalError(_) => is_uuid_str(answer_uuid@),
                }
            },
        },
{
    match answers_dao.delete_answer(answer_uuid.answer_uuid) {
        Ok(_) => Ok(()),
        Err(e) => Err(to_handler_error(e)),
    }
}

/// Replaces the content of the answer named in the request, keeping its
/// identity, parent reference, and creation timestamp.
pub fn update_answer<D: AnswersDao>(
    update_request: UpdateRequest<Answer>,
    answers_dao: &mut D,
) -> (r: Result<AnswerDetail, HandlerError>)
    requires
        old(answers_dao).inv(),
    ensures
        final(answers_dao).inv(),
        final(answers_dao).question_uuids() == old(answers_dao).question_uuids(),
        match r {
            Ok(d) => {
                &&& is_uuid_str(update_request.uuid@)
                &&& d@.answer_uuid == update_request.uuid@
                &&& d@.content == update_request.updated_entity@.content
                &&& exists|j: int|
                    {
                        &&& 0 <= j < old(answers_dao).answers().len()
                        &&& (#[trigger] old(answers_dao).answers()[j]).answer_uuid
                            == update_request.uuid@
                        &&& d@.question_uuid == old(answers_dao).answers()[j].question_uuid
                        &&& d@.created_at == old(answers_dao).answers()[j].created_at
                        &&& final(answers_dao).answers() == old(answers_dao).answers().update(
                            j,
                            d@,
                        )
                    }
            },
            Err(e) => {
                &&& final(answers_dao).answers() == old(answers_dao).answers()
                &&& match e {
                    HandlerError::BadRequest(u) => u@ == update_request.uuid@ && !is_uuid_str(
                        update_request.uuid@,
                    ),
                    HandlerError::InternalError(_) => is_uuid_str(update_request.uuid@),
                }
            },
        },
{
    let UpdateRequest { uuid, updated_entity } = update_request;
    match answers_dao.update_answer(updated_entity, uuid) {
        Ok(d) => Ok(d),
        Err(e) => Err(to_handler_error(e)),
    }
}

} // verus!
