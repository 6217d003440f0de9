//! Request handlers: the boundary that turns data-access outcomes into
//! transport-facing successes and error categories.

pub mod handlers_inner;

use vstd::prelude::*;
use crate::dao::{AnswersDao, QuestionsDao};
use crate::handlers::handlers_inner::HandlerError;
use crate::identifier::uuid_syntax_ok;
use crate::models::{Answer, AnswerDetail, Question, QuestionDetail};
use crate::store::{
    answers_of_other_questions, answers_of_question, answers_without, has_question,
    questions_without,
};

verus! {

/// The transport-facing error categories: a client error for the
/// caller's fault, a server error for the system's.
#[derive(Debug, Clone, PartialEq, Eq)]
pub enum APIError {
    BadRequest(String),
    InternalError(String),
}

impl From<HandlerError> for APIError {
    fn from(value: HandlerError) -> (r: APIError) {
        match value {
            HandlerError::BadRequest(s) => APIError::BadRequest(s),
            HandlerError::InternalError(s) => APIError::InternalError(s),
        }
    }
}

impl vstd::std_specs::convert::FromSpecImpl<HandlerError> for APIError {
    open spec fn obeys_from_spec() -> bool {
        true
    }

    open spec fn from_spec(t: HandlerError) -> APIError {
        match t {
            HandlerError::BadRequest(s) => APIError::BadRequest(s),
            HandlerError::InternalError(s) => APIError::InternalError(s),
        }
    }
}

/// Creates a question: on success the stored table grows by exactly
/// the returned record, which carries the caller's fields and
/// non-empty store-generated identifier and timestamp.
pub fn create_question<D: QuestionsDao>(question: Question, questions_dao: &mut D) -> (r: Result<
    QuestionDetail,
    APIError,
>)
    requires
        old(questions_dao).inv(),
    ensures
        final(questions_dao).inv(),
        final(questions_dao).answers_view() == old(questions_dao).answers_view(),
        r matches Ok(d) ==> ({
            &&& d@.title == question.title@
            &&& d@.description == question.description@
            &&& d@.question_uuid.len() > 0
            &&& d@.created_at.len() > 0
            &&& final(questions_dao).questions_view() == old(
                questions_dao,
            ).questions_view().push(d@)
        }),
        r matches Err(e) ==> (final(questions_dao).questions_view() == old(
            questions_dao,
        ).questions_view() && e matches APIError::InternalError(_)),
{
    match handlers_inner::create_question(question, questions_dao) {
        Ok(d) => Ok(d),
        Err(e) => Err(APIError::from(e)),
    }
}

/// Lists every stored question.
pub fn read_questions<D: QuestionsDao>(questions_dao: &D) -> (r: Result<
    Vec<QuestionDetail>,
    APIError,
>)
    requires
        questions_dao.inv(),
    ensures
        r matches Ok(v) ==> v@.map_values(|q: QuestionDetail| q@)
            == questions_dao.questions_view(),
        r matches Err(e) ==> e matches APIError::InternalError(_),
{
    match handlers_inner::read_questions(questions_dao) {
        Ok(v) => Ok(v),
        Err(e) => Err(APIError::from(e)),
    }
}

/// Deletes a question by identifier, cascading to its answers. A
/// malformed identifier is a client error; an absent one still
/// succeeds.
pub fn delete_question<D: QuestionsDao>(question_uuid: String, questions_dao: &mut D) -> (r: Result<
    (),
    APIError,
>)
    requires
        old(questions_dao).inv(),
    ensures
        final(questions_dao).inv(),
        r matches Err(APIError::BadRequest(_)) <==> !uuid_syntax_ok(question_uuid@),
        !uuid_syntax_ok(question_uuid@) ==> (r matches Err(APIError::BadRequest(u)) && u@
            == question_uuid@ && final(questions_dao).questions_view() == old(
            questions_dao,
        ).questions_view() && final(questions_dao).answers_view() == old(
            questions_dao,
        ).answers_view()),
        r is Ok ==> (uuid_syntax_ok(question_uuid@) && final(questions_dao).questions_view()
            == questions_without(old(questions_dao).questions_view(), question_uuid@)
            && final(questions_dao).answers_view() == answers_of_other_questions(
            old(questions_dao).answers_view(),
            question_uuid@,
        )),
        r matches Err(APIError::InternalError(_)) ==> (final(questions_dao).questions_view()
            == old(questions_dao).questions_view()
            && final(questions_dao).answers_view() == old(questions_dao).answers_view()),
{
    match handlers_inner::delete_question(question_uuid, questions_dao) {
        Ok(u) => Ok(u),
        Err(e) => Err(APIError::from(e)),
    }
}

/// Creates an answer for an existing question: a malformed or unknown
/// question identifier is a client error and inserts nothing.
pub fn create_answer<D: AnswersDao>(answer: Answer, answers_dao: &mut D) -> (r: Result<
    AnswerDetail,
    APIError,
>)
    requires
        old(answers_dao).inv(),
    ensures
        final(answers_dao).inv(),
        final(answers_dao).questions_view() == old(answers_dao).questions_view(),
        r matches Ok(d) ==> ({
            &&& uuid_syntax_ok(answer.question_uuid@)
            &&& has_question(old(answers_dao).questions_view(), answer.question_uuid@)
            &&& d@.question_uuid == answer.question_uuid@
            &&& d@.content == answer.content@
            &&& d@.answer_uuid.len() > 0
            &&& d@.created_at.len() > 0
            &&& final(answers_dao).answers_view() == old(answers_dao).answers_view().push(d@)
        }),
        r matches Err(APIError::BadRequest(_)) <==> (!uuid_syntax_ok(answer.question_uuid@)
            || !has_question(old(answers_dao).questions_view(), answer.question_uuid@)),
        r matches Err(e) ==> (final(answers_dao).answers_view() == old(answers_dao).answers_view()
            && (e matches APIError::BadRequest(u) ==> u@ == answer.question_uuid@)),
{
    match handlers_inner::create_answer(answer, answers_dao) {
        Ok(d) => Ok(d),
        Err(e) => Err(APIError::from(e)),
    }
}

/// Lists the answers of one question; a malformed identifier is a
/// client error.
pub fn read_answers<D: AnswersDao>(question_uuid: String, answers_dao: &D) -> (r: Result<
    Vec<AnswerDetail>,
    APIError,
>)
    requires
        answers_dao.inv(),
    ensures
        r matches Err(APIError::BadRequest(_)) <==> !uuid_syntax_ok(question_uuid@),
        !uuid_syntax_ok(question_uuid@) ==> (r matches Err(APIError::BadRequest(u)) && u@
            == question_uuid@),
        r matches Ok(v) ==> v@.map_values(|a: AnswerDetail| a@) == answers_of_question(
            answers_dao.answers_view(),
            question_uuid@,
        ),
{
    match handlers_inner::read_answers(question_uuid, answers_dao) {
        Ok(v) => Ok(v),
        Err(e) => Err(APIError::from(e)),
    }
}

/// Deletes an answer by identifier. A malformed identifier is a client
/// error; an absent one still succeeds.
pub fn delete_answer<D: AnswersDao>(answer_uuid: String, answers_dao: &mut D) -> (r: Result<
    (),
    APIError,
>)
    requires
        old(answers_dao).inv(),
    ensures
        final(answers_dao).inv(),
        final(answers_dao).questions_view() == old(answers_dao).questions_view(),
        r matches Err(APIError::BadRequest(_)) <==> !uuid_syntax_ok(answer_uuid@),
        !uuid_syntax_ok(answer_uuid@) ==> (r matches Err(APIError::BadRequest(u)) && u@
            == answer_uuid@ && final(answers_dao).answers_view() == old(
            answers_dao,
        ).answers_view()),
        r is Ok ==> (uuid_syntax_ok(answer_uuid@) && final(answers_dao).answers_view()
            == answers_without(old(answers_dao).answers_view(), answer_uuid@)),
        r matches Err(APIError::InternalError(_)) ==> final(answers_dao).answers_view() == old(
            answers_dao,
        ).answers_view(),
{
    match handlers_inner::delete_answer(answer_uuid, answers_dao) {
        Ok(u) => Ok(u),
        Err(e) => Err(APIError::from(e)),
    }
}

} // verus!
