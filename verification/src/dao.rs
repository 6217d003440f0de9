//! Data-access contracts for the two resources.
//!
//! Each trait states what any conforming store must do: validate
//! identifier syntax before touching the store, surface a reference to
//! a missing question as the caller's fault, treat an absent row on
//! deletion as success, and report every other failure as the store's
//! fault while leaving the data unchanged.

use vstd::prelude::*;
use crate::identifier::uuid_syntax_ok;
use crate::models::{Answer, AnswerDetail, AnswerView, DBError, Question, QuestionDetail,
    QuestionView};
use crate::store::{
    answers_of_other_questions, answers_of_question, answers_without, has_question,
    questions_without,
};

verus! {

/// Storage operations on questions.
pub trait QuestionsDao: Sized {
    /// The stored questions this data source holds.
    spec fn questions_view(&self) -> Seq<QuestionView>;

    /// The stored answers this data source holds; deleting a question
    /// cascades to them.
    spec fn answers_view(&self) -> Seq<AnswerView>;

    /// The data source's own well-formedness.
    spec fn inv(&self) -> bool;

    /// Inserts one question; the store assigns its identifier and
    /// timestamp. A failure leaves the table unchanged and is the
    /// store's fault, never the caller's.
    fn create_question(&mut self, question: Question) -> (r: Result<QuestionDetail, DBError>)
        requires
            old(self).inv(),
        ensures
            final(self).inv(),
            final(self).answers_view() == old(self).answers_view(),
            r matches Ok(d) ==> ({
                &&& d@.title == question.title@
                &&& d@.description == question.description@
                &&& d@.question_uuid.len() > 0
                &&& d@.created_at.len() > 0
                &&& final(self).questions_view() == old(self).questions_view().push(d@)
            }),
            r matches Err(e) ==> (final(self).questions_view() == old(self).questions_view()
                && e matches DBError::Other(_)),
    ;

    /// Deletes a question by identifier, cascading to its answers. A
    /// malformed identifier is rejected, as the caller's fault, before
    /// any store access; deleting an absent identifier succeeds.
    fn delete_question(&mut self, question_uuid: String) -> (r: Result<(), DBError>)
        requires
            old(self).inv(),
        ensures
            final(self).inv(),
            r matches Err(DBError::InvalidUUID(_)) <==> !uuid_syntax_ok(question_uuid@),
            !uuid_syntax_ok(question_uuid@) ==> (r matches Err(DBError::InvalidUUID(u)) && u@
                == question_uuid@ && final(self).questions_view() == old(self).questions_view()
                && final(self).answers_view() == old(self).answers_view()),
            r is Ok ==> (uuid_syntax_ok(question_uuid@) && final(self).questions_view()
                == questions_without(old(self).questions_view(), question_uuid@)
                && final(self).answers_view() == answers_of_other_questions(
                old(self).answers_view(),
                question_uuid@,
            )),
            r matches Err(DBError::Other(_)) ==> (final(self).questions_view()
                == old(self).questions_view()
                && final(self).answers_view() == old(self).answers_view()),
    ;

    /// Returns every stored question; an empty table is an empty
    /// sequence, not an error.
    fn get_questions(&self) -> (r: Result<Vec<QuestionDetail>, DBError>)
        requires
            self.inv(),
        ensures
            r matches Ok(v) ==> v@.map_values(|q: QuestionDetail| q@) == self.questions_view(),
            r matches Err(e) ==> e matches DBError::Other(_),
    ;
}

/// Storage operations on answers.
pub trait AnswersDao: Sized {
    /// The stored answers this data source holds.
    spec fn answers_view(&self) -> Seq<AnswerView>;

    /// The stored questions this data source holds; an answer may only
    /// reference one of them.
    spec fn questions_view(&self) -> Seq<QuestionView>;

    /// The data source's own well-formedness.
    spec fn inv(&self) -> bool;

    /// Inserts one answer for an existing question; the store assigns
    /// the answer's identifier and timestamp. A malformed question
    /// identifier, or one that references no stored question, is the
    /// caller's fault and inserts nothing; any other failure is the
    /// store's fault and also inserts nothing.
    fn create_answer(&mut self, answer: Answer) -> (r: Result<AnswerDetail, DBError>)
        requires
            old(self).inv(),
        ensures
            final(self).inv(),
            final(self).questions_view() == old(self).questions_view(),
            r matches Ok(d) ==> ({
                &&& uuid_syntax_ok(answer.question_uuid@)
                &&& has_question(old(self).questions_view(), answer.question_uuid@)
                &&& d@.question_uuid == answer.question_uuid@
                &&& d@.content == answer.content@
                &&& d@.answer_uuid.len() > 0
                &&& d@.created_at.len() > 0
                &&& final(self).answers_view() == old(self).answers_view().push(d@)
            }),
            r matches Err(DBError::InvalidUUID(_)) <==> (!uuid_syntax_ok(answer.question_uuid@)
                || !has_question(old(self).questions_view(), answer.question_uuid@)),
            r matches Err(e) ==> (final(self).answers_view() == old(self).answers_view() && (
            e matches DBError::InvalidUUID(u) ==> u@ == answer.question_uuid@)),
    ;

    /// Deletes an answer by identifier. A malformed identifier is
    /// rejected, as the caller's fault, before any store access;
    /// deleting an absent identifier succeeds.
    fn delete_answer(&mut self, answer_uuid: String) -> (r: Result<(), DBError>)
        requires
            old(self).inv(),
        ensures
            final(self).inv(),
            final(self).questions_view() == old(self).questions_view(),
            r matches Err(DBError::InvalidUUID(_)) <==> !uuid_syntax_ok(answer_uuid@),
            !uuid_syntax_ok(answer_uuid@) ==> (r matches Err(DBError::InvalidUUID(u)) && u@
                == answer_uuid@ && final(self).answers_view() == old(self).answers_view()),
            r is Ok ==> (uuid_syntax_ok(answer_uuid@) && final(self).answers_view()
                == answers_without(old(self).answers_view(), answer_uuid@)),
            r matches Err(DBError::Other(_)) ==> final(self).answers_view()
                == old(self).answers_view(),
    ;

    /// Returns the answers attached to the given question, validating
    /// the identifier first. A question with no answers, or an absent
    /// question, yields an empty sequence, not an error.
    fn get_answers(&self, question_uuid: String) -> (r: Result<Vec<AnswerDetail>, DBError>)
        requires
            self.inv(),
        ensures
            r matches Err(DBError::InvalidUUID(_)) <==> !uuid_syntax_ok(question_uuid@),
            !uuid_syntax_ok(question_uuid@) ==> (r matches Err(DBError::InvalidUUID(u)) && u@
                == question_uuid@),
            r matches Ok(v) ==> v@.map_values(|a: AnswerDetail| a@) == answers_of_question(
                self.answers_view(),
                question_uuid@,
            ),
    ;
}

} // verus!
