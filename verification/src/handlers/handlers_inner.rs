//! The handler core: forwards each request to the data-access layer
//! and maps its errors onto the two transport-facing categories.

use vstd::prelude::*;
use crate::dao::{AnswersDao, QuestionsDao};
use crate::identifier::uuid_syntax_ok;
use crate::models::{Answer, AnswerDetail, DBError, Question, QuestionDetail};
use crate::store::{
    answers_of_other_questions, answers_of_question, answers_without, has_question,
    questions_without,
};

verus! {

/// An error as the request handlers see it: the caller's fault or the
/// system's.
#[derive(Debug, Clone, PartialEq, Eq)]
pub enum HandlerError {
    BadRequest(String),
    InternalError(String),
}

/// Maps a storage error: an invalid identifier is the caller's fault,
/// anything else the system's, each keeping its message.
pub fn handler_error_of(e: DBError) -> (r: HandlerError)
    ensures
        e matches DBError::InvalidUUID(u) ==> (r matches HandlerError::BadRequest(m) && m@ == u@),
        e matches DBError::Other(o) ==> (r matches HandlerError::InternalError(m) && m@ == o@),
{
    match e {
        DBError::InvalidUUID(u) => HandlerError::BadRequest(u),
        DBError::Other(o) => HandlerError::InternalError(o),
    }
}

/// Creates a question through the data-access layer.
pub fn create_question<D: QuestionsDao>(question: Question, questions_dao: &mut D) -> (r: Result<
    QuestionDetail,
    HandlerError,
>)
    requires
        old(questions_dao).inv(),
    ensures
        final(questions_dao).inv(),
        final(questions_dao).answers_view() == old(questions_dao).answers_view(),
        r matches Ok(d) ==> ({
            &&& d@.title == question.title@
            &&& d@.description == question.description@
            &&& d@.question_uuid.len() > 0
            &&& d@.created_at.len() > 0
            &&& final(questions_dao).questions_view() == old(
                questions_dao,
            ).questions_view().push(d@)
        }),
        r matches Err(e) ==> (final(questions_dao).questions_view() == old(
            questions_dao,
        ).questions_view() && e matches HandlerError::InternalError(_)),
{
    match questions_dao.create_question(question) {
        Ok(d) => Ok(d),
        Err(e) => Err(handler_error_of(e)),
    }
}

/// Lists all questions through the data-access layer.
pub fn read_questions<D: QuestionsDao>(questions_dao: &D) -> (r: Result<
    Vec<QuestionDetail>,
    HandlerError,
>)
    requires
        questions_dao.inv(),
    ensures
        r matches Ok(v) ==> v@.map_values(|q: QuestionDetail| q@)
            == questions_dao.questions_view(),
        r matches Err(e) ==> e matches HandlerError::InternalError(_),
{
    match questions_dao.get_questions() {
        Ok(v) => Ok(v),
        Err(e) => Err(handler_error_of(e)),
    }
}

/// Deletes a question through the data-access layer.
pub fn delete_question<D: QuestionsDao>(question_uuid: String, questions_dao: &mut D) -> (r: Result<
    (),
    HandlerError,
>)
    requires
        old(questions_dao).inv(),
    ensures
        final(questions_dao).inv(),
        r matches Err(HandlerError::BadRequest(_)) <==> !uuid_syntax_ok(question_uuid@),
        !uuid_syntax_ok(question_uuid@) ==> (r matches Err(HandlerError::BadRequest(u)) && u@
            == question_uuid@ && final(questions_dao).questions_view() == old(
            questions_dao,
        ).questions_view() && final(questions_dao).answers_view() == old(
            questions_dao,
        ).answers_view()),
        r is Ok ==> (uuid_syntax_ok(question_uuid@) && final(questions_dao).questions_view()
            == questions_without(old(questions_dao).questions_view(), question_uuid@)
            && final(questions_dao).answers_view() == answers_of_other_questions(
            old(questions_dao).answers_view(),
            question_uuid@,
        )),
        r matches Err(HandlerError::InternalError(_)) ==> (final(questions_dao).questions_view()
            == old(questions_dao).questions_view()
            && final(questions_dao).answers_view() == old(questions_dao).answers_view()),
{
    match questions_dao.delete_question(question_uuid) {
        Ok(u) => Ok(u),
        Err(e) => Err(handler_error_of(e)),
    }
}

/// Creates an answer through the data-access layer.
pub fn create_answer<D: AnswersDao>(answer: Answer, answers_dao: &mut D) -> (r: Result<
    AnswerDetail,
    HandlerError,
>)
    requires
        old(answers_dao).inv(),
    ensures
        final(answers_dao).inv(),
        final(answers_dao).questions_view() == old(answers_dao).questions_view(),
        r matches Ok(d) ==> ({
            &&& uuid_syntax_ok(answer.question_uuid@)
            &&& has_question(old(answers_dao).questions_view(), answer.question_uuid@)
            &&& d@.question_uuid == answer.question_uuid@
            &&& d@.content == answer.content@
            &&& d@.answer_uuid.len() > 0
            &&& d@.created_at.len() > 0
            &&& final(answers_dao).answers_view() == old(answers_dao).answers_view().push(d@)
        }),
        r matches Err(HandlerError::BadRequest(_)) <==> (!uuid_syntax_ok(answer.question_uuid@)
            || !has_question(old(answers_dao).questions_view(), answer.question_uuid@)),
        r matches Err(e) ==> (final(answers_dao).answers_view() == old(answers_dao).answers_view()
            && (e matches HandlerError::BadRequest(u) ==> u@ == answer.question_uuid@)),
{
    match answers_dao.create_answer(answer) {
        Ok(d) => Ok(d),
        Err(e) => Err(handler_error_of(e)),
    }
}

/// Lists a question's answers through the data-access layer.
pub fn read_answers<D: AnswersDao>(question_uuid: String, answers_dao: &D) -> (r: Result<
    Vec<AnswerDetail>,
    HandlerError,
>)
    requires
        answers_dao.inv(),
    ensures
        r matches Err(HandlerError::BadRequest(_)) <==> !uuid_syntax_ok(question_uuid@),
        !uuid_syntax_ok(question_uuid@) ==> (r matches Err(HandlerError::BadRequest(u)) && u@
            == question_uuid@),
        r matches Ok(v) ==> v@.map_values(|a: AnswerDetail| a@) == answers_of_question(
            answers_dao.answers_view(),
            question_uuid@,
        ),
{
    match answers_dao.get_answers(question_uuid) {
        Ok(v) => Ok(v),
        Err(e) => Err(handler_error_of(e)),
    }
}

/// Deletes an answer through the data-access layer.
pub fn delete_answer<D: AnswersDao>(answer_uuid: String, answers_dao: &mut D) -> (r: Result<
    (),
    HandlerError,
>)
    requires
        old(answers_dao).inv(),
    ensures
        final(answers_dao).inv(),
        final(answers_dao).questions_view() == old(answers_dao).questions_view(),
        r matches Err(HandlerError::BadRequest(_)) <==> !uuid_syntax_ok(answer_uuid@),
        !uuid_syntax_ok(answer_uuid@) ==> (r matches Err(HandlerError::BadRequest(u)) && u@
            == answer_uuid@ && final(answers_dao).answers_view() == old(
            answers_dao,
        ).answers_view()),
        r is Ok ==> (uuid_syntax_ok(answer_uuid@) && final(answers_dao).answers_view()
            == answers_without(old(answers_dao).answers_view(), answer_uuid@)),
        r matches Err(HandlerError::InternalError(_)) ==> final(answers_dao).answers_view() == old(
            answers_dao,
        ).answers_view(),
{
    match answers_dao.delete_answer(answer_uuid) {
        Ok(u) => Ok(u),
        Err(e) => Err(handler_error_of(e)),
    }
}

} // verus!
