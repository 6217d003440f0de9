//! Entity types, the error taxonomy, and their ghost views.

use vstd::prelude::*;

verus! {

/// A question as supplied by a caller: the store generates the
/// identifier and the timestamp.
#[derive(Debug, Clone, PartialEq, Eq)]
pub struct Question {
    pub title: String,
    pub description: String,
}

/// A fully persisted question, including the store-generated fields.
#[derive(Debug, Clone, PartialEq, Eq)]
pub struct QuestionDetail {
    pub question_uuid: String,
    pub title: String,
    pub description: String,
    pub created_at: String,
}

/// An answer as supplied by a caller: `question_uuid` must name an
/// existing question.
#[derive(Debug, Clone, PartialEq, Eq)]
pub struct Answer {
    pub question_uuid: String,
    pub content: String,
}

/// A fully persisted answer, including the store-generated fields.
#[derive(Debug, Clone, PartialEq, Eq)]
pub struct AnswerDetail {
    pub answer_uuid: String,
    pub question_uuid: String,
    pub content: String,
    pub created_at: String,
}

/// The mathematical image of a persisted question.
#[verifier::ext_equal]
pub ghost struct QuestionView {
    pub question_uuid: Seq<char>,
    pub title: Seq<char>,
    pub description: Seq<char>,
    pub created_at: Seq<char>,
}

/// The mathematical image of a persisted answer.
#[verifier::ext_equal]
pub ghost struct AnswerView {
    pub answer_uuid: Seq<char>,
    pub question_uuid: Seq<char>,
    pub content: Seq<char>,
    pub created_at: Seq<char>,
}

impl View for QuestionDetail {
    type V = QuestionView;

    open spec fn view(&self) -> QuestionView {
        QuestionView {
            question_uuid: self.question_uuid@,
            title: self.title@,
            description: self.description@,
            created_at: self.created_at@,
        }
    }
}

impl View for AnswerDetail {
    type V = AnswerView;

    open spec fn view(&self) -> AnswerView {
        AnswerView {
            answer_uuid: self.answer_uuid@,
            question_uuid: self.question_uuid@,
            content: self.content@,
            created_at: self.created_at@,
        }
    }
}

/// The closed error set of the data-access layer: the caller's fault
/// (a malformed identifier, or a reference to a missing row) versus
/// the system's fault (any other failure of the store).
#[derive(Debug, Clone, PartialEq, Eq)]
pub enum DBError {
    InvalidUUID(String),
    Other(String),
}

/// A field-for-field copy of a persisted question; the copy carries
/// the same values.
pub fn clone_question(q: &QuestionDetail) -> (r: QuestionDetail)
    ensures
        r == *q,
{
    QuestionDetail {
        question_uuid: q.question_uuid.clone(),
        title: q.title.clone(),
        description: q.description.clone(),
        created_at: q.created_at.clone(),
    }
}

/// A field-for-field copy of a persisted answer; the copy carries the
/// same values.
pub fn clone_answer(a: &AnswerDetail) -> (r: AnswerDetail)
    ensures
        r == *a,
{
    AnswerDetail {
        answer_uuid: a.answer_uuid.clone(),
        question_uuid: a.question_uuid.clone(),
        content: a.content.clone(),
        created_at: a.created_at.clone(),
    }
}

} // verus!
