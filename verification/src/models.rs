//! Entity model and error taxonomy.
//!
//! Entities come in two shapes: the bare input form a caller supplies
//! (`Question`, `Answer`) and the persisted, identified "detail" form the
//! store returns (`QuestionDetail`, `AnswerDetail`). Identifier wrappers
//! (`QuestionId`, `AnswerId`) and the update envelope (`UpdateRequest`)
//! round out the inputs. Every store operation reports failure through
//! `DBError`, the sole error vocabulary callers are allowed to inspect.

use vstd::prelude::*;

verus! {

/// Spec-level shape of a [`Question`].
#[verifier::ext_equal]
pub ghost struct QuestionView {
    pub title: Seq<char>,
    pub description: Seq<char>,
}

/// A question as a caller submits it: no identity yet.
pub struct Question {
    pub title: String,
    pub description: String,
}

impl View for Question {
    type V = QuestionView;

    open spec fn view(&self) -> QuestionView {
        QuestionView { title: self.title@, description: self.description@ }
    }
}

/// Spec-level shape of a [`QuestionDetail`].
#[verifier::ext_equal]
pub ghost struct QuestionDetailView {
    pub question_uuid: Seq<char>,
    pub title: Seq<char>,
    pub description: Seq<char>,
    pub created_at: Seq<char>,
}

/// A persisted question: the input fields plus the identifier and the
/// creation timestamp the store assigned. Both are set once, at creation,
/// and never change afterwards.
pub struct QuestionDetail {
    pub question_uuid: String,
    pub title: String,
    pub description: String,
    pub created_at: String,
}

impl View for QuestionDetail {
    type V = QuestionDetailView;

    open spec fn view(&self) -> QuestionDetailView {
        QuestionDetailView {
            question_uuid: self.question_uuid@,
            title: self.title@,
            description: self.description@,
            created_at: self.created_at@,
        }
    }
}

/// Spec-level shape of an [`Answer`].
#[verifier::ext_equal]
pub ghost struct AnswerView {
    pub question_uuid: Seq<char>,
    pub content: Seq<char>,
}

/// An answer as a caller submits it. `question_uuid` must resolve to an
/// existing question or creation fails.
pub struct Answer {
    pub question_uuid: String,
    pub content: String,
}

impl View for Answer {
    type V = AnswerView;

    open spec fn view(&self) -> AnswerView {
        AnswerView { question_uuid: self.question_uuid@, content: self.content@ }
    }
}

/// Spec-level shape of an [`AnswerDetail`].
#[verifier::ext_equal]
pub ghost struct AnswerDetailView {
    pub answer_uuid: Seq<char>,
    pub question_uuid: Seq<char>,
    pub content: Seq<char>,
    pub created_at: Seq<char>,
}

/// A persisted answer: its own identifier, the parent question's
/// identifier, the content, and the creation timestamp.
pub struct AnswerDetail {
    pub answer_uuid: String,
    pub question_uuid: String,
    pub content: String,
    pub created_at: String,
}

impl View for AnswerDetail {
    type V = AnswerDetailView;

    open spec fn view(&self) -> AnswerDetailView {
        AnswerDetailView {
            answer_uuid: self.answer_uuid@,
            question_uuid: self.question_uuid@,
            content: self.content@,
            created_at: self.created_at@,
        }
    }
}

/// A bare question identifier, used for delete and lookup requests.
pub struct QuestionId {
    pub question_uuid: String,
}

impl View for QuestionId {
    type V = Seq<char>;

    open spec fn view(&self) -> Seq<char> {
        self.question_uuid@
    }
}

/// A bare answer identifier, used for delete requests.
pub struct AnswerId {
    pub answer_uuid: String,
}

impl View for AnswerId {
    type V = Seq<char>;

    open spec fn view(&self) -> Seq<char> {
        self.answer_uuid@
    }
}

/// Pairs an identifier with a full replacement body for that entity.
pub struct UpdateRequest<T> {
    pub uuid: String,
    pub updated_entity: T,
}

/// The SQLSTATE code a Postgres backend reports for a foreign-key
/// violation; on answer insertion it means the referenced question does
/// not exist.
pub const FOREIGN_KEY_VIOLATION: &'static str = "23503";

/// The closed set of storage-failure kinds a store operation may surface.
///
/// `InvalidUUID` carries the offending identifier and covers both a
/// syntactically malformed identifier and, on answer creation, a parent
/// question that does not exist: both are client-correctable input
/// problems. `Other` covers every remaining backend-level failure and
/// carries diagnostic context only.
#[derive(Debug)]
pub enum DBError {
    InvalidUUID(String),
    Other(String),
}

} // verus!
