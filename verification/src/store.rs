//! A fully verified in-memory store for questions and answers.
//!
//! The store assigns identifiers and creation timestamps from a
//! private counter, keeps every answer's `question_uuid` pointing at
//! an existing question, and deletes idempotently: removing an
//! identifier that is absent succeeds and changes nothing.

use vstd::prelude::*;
use vstd::string::StringExecFns;
use crate::dao::{AnswersDao, QuestionsDao};
use crate::identifier::{
    format_tick, format_uuid, is_hyphenated_uuid, lemma_uuid_str_injective, uuid_str,
    uuid_syntax_ok, validate_uuid,
};
use crate::models::{
    clone_answer, clone_question, Answer, AnswerDetail, AnswerView, DBError, Question,
    QuestionDetail, QuestionView,
};

verus! {

/// Some stored question carries this identifier.
pub open spec fn has_question(qs: Seq<QuestionView>, id: Seq<char>) -> bool {
    exists|k: int| 0 <= k < qs.len() && #[trigger] qs[k].question_uuid == id
}

/// Some stored answer carries this identifier.
pub open spec fn has_answer(ans: Seq<AnswerView>, id: Seq<char>) -> bool {
    exists|k: int| 0 <= k < ans.len() && #[trigger] ans[k].answer_uuid == id
}

/// The questions that remain once `id` is deleted.
pub open spec fn questions_without(qs: Seq<QuestionView>, id: Seq<char>) -> Seq<QuestionView> {
    qs.filter(|q: QuestionView| q.question_uuid != id)
}

/// The answers that remain once answer `id` is deleted.
pub open spec fn answers_without(ans: Seq<AnswerView>, id: Seq<char>) -> Seq<AnswerView> {
    ans.filter(|a: AnswerView| a.answer_uuid != id)
}

/// The answers attached to question `qid`.
pub open spec fn answers_of_question(ans: Seq<AnswerView>, qid: Seq<char>) -> Seq<AnswerView> {
    ans.filter(|a: AnswerView| a.question_uuid == qid)
}

/// The answers that survive the cascading deletion of question `qid`.
pub open spec fn answers_of_other_questions(ans: Seq<AnswerView>, qid: Seq<char>) -> Seq<
    AnswerView,
> {
    ans.filter(|a: AnswerView| a.question_uuid != qid)
}

/// Deleting from a table extended by one question keeps the new row
/// exactly when its identifier differs from the deleted one.
pub proof fn lemma_questions_without_push(s: Seq<QuestionView>, q: QuestionView, id: Seq<char>)
    ensures
        questions_without(s.push(q), id) == (if q.question_uuid != id {
            questions_without(s, id).push(q)
        } else {
            questions_without(s, id)
        }),
{
    broadcast use Seq::lemma_filter_push;

}

/// Deleting from a table extended by one answer keeps the new row
/// exactly when its identifier differs from the deleted one.
pub proof fn lemma_answers_without_push(s: Seq<AnswerView>, a: AnswerView, id: Seq<char>)
    ensures
        answers_without(s.push(a), id) == (if a.answer_uuid != id {
            answers_without(s, id).push(a)
        } else {
            answers_without(s, id)
        }),
{
    broadcast use Seq::lemma_filter_push;

}

/// Filtering a table extended by one answer keeps the new row exactly
/// when it belongs to the filtered question.
pub proof fn lemma_answers_of_question_push(s: Seq<AnswerView>, a: AnswerView, qid: Seq<char>)
    ensures
        answers_of_question(s.push(a), qid) == (if a.question_uuid == qid {
            answers_of_question(s, qid).push(a)
        } else {
            answers_of_question(s, qid)
        }),
{
    broadcast use Seq::lemma_filter_push;

}

/// The cascade of a question deletion over a table extended by one
/// answer keeps the new row exactly when it belongs to another
/// question.
pub proof fn lemma_answers_of_other_questions_push(
    s: Seq<AnswerView>,
    a: AnswerView,
    qid: Seq<char>,
)
    ensures
        answers_of_other_questions(s.push(a), qid) == (if a.question_uuid != qid {
            answers_of_other_questions(s, qid).push(a)
        } else {
            answers_of_other_questions(s, qid)
        }),
{
    broadcast use Seq::lemma_filter_push;

}

/// An in-memory relational store for both resources.
pub struct InMemoryStore {
    questions: Vec<QuestionDetail>,
    answers: Vec<AnswerDetail>,
    next_id: u128,
    q_ids: Ghost<Seq<u128>>,
    a_ids: Ghost<Seq<u128>>,
}

impl InMemoryStore {
    /// The stored questions, in insertion order.
    pub closed spec fn questions(&self) -> Seq<QuestionView> {
        self.questions@.map_values(|q: QuestionDetail| q@)
    }

    /// The stored answers, in insertion order.
    pub closed spec fn answers(&self) -> Seq<AnswerView> {
        self.answers@.map_values(|a: AnswerDetail| a@)
    }

    /// How many identifiers the store has handed out so far.
    pub closed spec fn used_ids(&self) -> int {
        self.next_id as int
    }

    /// The identifier counter is exhausted; no further row can be
    /// created.
    pub open spec fn at_capacity(&self) -> bool {
        self.used_ids() == u128::MAX as int
    }

    /// The store invariant: every row's identifier encodes a counter
    /// value below the current one, counter values are distinct per
    /// table, timestamps record the creating counter value, and every
    /// answer references an existing question.
    pub closed spec fn wf(&self) -> bool {
        &&& self.q_ids@.len() == self.questions@.len()
        &&& self.a_ids@.len() == self.answers@.len()
        &&& (forall|k: int|
            0 <= k < self.questions@.len() ==> (#[trigger] self.questions@[k].question_uuid)@
                == uuid_str(self.q_ids@[k]))
        &&& (forall|k: int| 0 <= k < self.q_ids@.len() ==> #[trigger] self.q_ids@[k] < self.next_id)
        &&& (forall|k: int|
            0 <= k < self.answers@.len() ==> (#[trigger] self.answers@[k].answer_uuid)@
                == uuid_str(self.a_ids@[k]))
        &&& (forall|k: int| 0 <= k < self.a_ids@.len() ==> #[trigger] self.a_ids@[k] < self.next_id)
        &&& (forall|k1: int, k2: int|
            0 <= k1 < k2 < self.q_ids@.len() ==> #[trigger] self.q_ids@[k1] != #[trigger] self.q_ids@[k2])
        &&& (forall|k1: int, k2: int|
            0 <= k1 < k2 < self.a_ids@.len() ==> #[trigger] self.a_ids@[k1] != #[trigger] self.a_ids@[k2])
        &&& (forall|k: int|
            0 <= k < self.answers@.len() ==> has_question(
                self.questions(),
                (#[trigger] self.answers@[k].question_uuid)@,
            ))
    }

    /// An empty store.
    pub fn new() -> (s: InMemoryStore)
        ensures
            s.wf(),
            s.questions() == Seq::<QuestionView>::empty(),
            s.answers() == Seq::<AnswerView>::empty(),
            s.used_ids() == 0,
    {
        let s = InMemoryStore {
            questions: Vec::new(),
            answers: Vec::new(),
            next_id: 0,
            q_ids: Ghost(Seq::empty()),
            a_ids: Ghost(Seq::empty()),
        };
        proof {
            assert(s.questions() =~= Seq::<QuestionView>::empty());
            assert(s.answers() =~= Seq::<AnswerView>::empty());
        }
        s
    }

    /// Whether a stored question carries this identifier.
    fn question_exists(&self, id: &String) -> (r: bool)
        ensures
            r == has_question(self.questions(), id@),
    {
        let mut k: usize = 0;
        while k < self.questions.len()
            invariant
                0 <= k <= self.questions@.len(),
                forall|m: int|
                    0 <= m < k ==> (#[trigger] self.questions@[m].question_uuid)@ != id@,
            decreases self.questions@.len() - k,
        {
            if self.questions[k].question_uuid == *id {
                assert(self.questions()[k as int].question_uuid == id@);
                return true;
            }
            k = k + 1;
        }
        assert forall|m: int| 0 <= m < self.questions().len() implies #[trigger] self.questions()[m].question_uuid
            != id@ by {
            assert(self.questions()[m] == self.questions@[m]@);
        }
        false
    }

    /// No stored question carries the identifier that `uuid_str(id)`
    /// spells when every stored counter value lies below `id`.
    proof fn lemma_fresh_question_uuid(&self, id: u128)
        requires
            self.wf(),
            forall|k: int| 0 <= k < self.q_ids@.len() ==> #[trigger] self.q_ids@[k] < id,
        ensures
            !has_question(self.questions(), uuid_str(id)),
    {
        assert forall|k: int| 0 <= k < self.questions().len() implies #[trigger] self.questions()[k].question_uuid
            != uuid_str(id) by {
            assert(self.questions()[k] == self.questions@[k]@);
            if self.questions()[k].question_uuid == uuid_str(id) {
                lemma_uuid_str_injective(self.q_ids@[k], id);
            }
        }
    }

    /// No stored answer carries the identifier that `uuid_str(id)`
    /// spells when every stored counter value lies below `id`.
    proof fn lemma_fresh_answer_uuid(&self, id: u128)
        requires
            self.wf(),
            forall|k: int| 0 <= k < self.a_ids@.len() ==> #[trigger] self.a_ids@[k] < id,
        ensures
            !has_answer(self.answers(), uuid_str(id)),
    {
        assert forall|k: int| 0 <= k < self.answers().len() implies #[trigger] self.answers()[k].answer_uuid
            != uuid_str(id) by {
            assert(self.answers()[k] == self.answers@[k]@);
            if self.answers()[k].answer_uuid == uuid_str(id) {
                lemma_uuid_str_injective(self.a_ids@[k], id);
            }
        }
    }

    /// In a well-formed store, no two questions share an identifier.
    pub proof fn lemma_question_uuids_distinct(&self)
        requires
            self.wf(),
        ensures
            forall|k1: int, k2: int|
                0 <= k1 < k2 < self.questions().len() ==> (#[trigger] self.questions()[k1]).question_uuid
                    != (#[trigger] self.questions()[k2]).question_uuid,
    {
        assert forall|k1: int, k2: int| 0 <= k1 < k2 < self.questions().len() implies (
        #[trigger] self.questions()[k1]).question_uuid
            != (#[trigger] self.questions()[k2]).question_uuid by {
            assert(self.questions()[k1] == self.questions@[k1]@);
            assert(self.questions()[k2] == self.questions@[k2]@);
            if self.questions()[k1].question_uuid == self.questions()[k2].question_uuid {
                lemma_uuid_str_injective(self.q_ids@[k1], self.q_ids@[k2]);
            }
        }
    }

    /// In a well-formed store, no two answers share an identifier.
    pub proof fn lemma_answer_uuids_distinct(&self)
        requires
            self.wf(),
        ensures
            forall|k1: int, k2: int|
                0 <= k1 < k2 < self.answers().len() ==> (#[trigger] self.answers()[k1]).answer_uuid
                    != (#[trigger] self.answers()[k2]).answer_uuid,
    {
        assert forall|k1: int, k2: int| 0 <= k1 < k2 < self.answers().len() implies (
        #[trigger] self.answers()[k1]).answer_uuid
            != (#[trigger] self.answers()[k2]).answer_uuid by {
            assert(self.answers()[k1] == self.answers@[k1]@);
            assert(self.answers()[k2] == self.answers@[k2]@);
            if self.answers()[k1].answer_uuid == self.answers()[k2].answer_uuid {
                lemma_uuid_str_injective(self.a_ids@[k1], self.a_ids@[k2]);
            }
        }
    }
}

impl QuestionsDao for InMemoryStore {
    open spec fn questions_view(&self) -> Seq<QuestionView> {
        self.questions()
    }

    open spec fn answers_view(&self) -> Seq<AnswerView> {
        self.answers()
    }

    open spec fn inv(&self) -> bool {
        self.wf()
    }

    /// Inserts a question. The store generates its identifier, fresh
    /// among all stored questions, and its creation timestamp.
    fn create_question(&mut self, question: Question) -> (r: Result<QuestionDetail, DBError>)
        ensures
            final(self).wf(),
            final(self).answers() == old(self).answers(),
            r is Ok <==> !old(self).at_capacity(),
            r is Ok ==> final(self).used_ids() == old(self).used_ids() + 1,
            r is Err ==> final(self).used_ids() == old(self).used_ids(),
            r matches Ok(d) ==> {
                &&& d@.title == question.title@
                &&& d@.description == question.description@
                &&& is_hyphenated_uuid(d@.question_uuid)
                &&& uuid_syntax_ok(d@.question_uuid)
                &&& d@.question_uuid.len() == 36
                &&& d@.created_at.len() == 32
                &&& !has_question(old(self).questions(), d@.question_uuid)
                &&& final(self).questions() == old(self).questions().push(d@)
            },
            r is Err ==> final(self).questions() == old(self).questions() && r matches Err(
                DBError::Other(_),
            ),
    {
        if self.next_id == u128::MAX {
            return Err(DBError::Other(String::from_str("identifier space exhausted")));
        }
        let id = self.next_id;
        self.next_id = self.next_id + 1;
        let d = QuestionDetail {
            question_uuid: format_uuid(id),
            title: question.title,
            description: question.description,
            created_at: format_tick(id),
        };
        let out = clone_question(&d);
        proof {
            self.lemma_fresh_question_uuid(id);
        }
        self.questions.push(d);
        self.q_ids = Ghost(self.q_ids@.push(id));
        proof {
            assert(self.questions() =~= old(self).questions().push(out@));
            assert(self.answers() =~= old(self).answers());
            assert forall|k: int| 0 <= k < self.answers@.len() implies has_question(
                self.questions(),
                (#[trigger] self.answers@[k].question_uuid)@,
            ) by {
                let qid = (self.answers@[k].question_uuid)@;
                assert(has_question(old(self).questions(), qid));
                let m = choose|m: int|
                    0 <= m < old(self).questions().len() && #[trigger] old(
                        self,
                    ).questions()[m].question_uuid == qid;
                assert(self.questions()[m].question_uuid == qid);
            }
        }
        Ok(out)
    }

    /// Returns every stored question. Listing never fails here; an
    /// empty store yields an empty sequence.
    fn get_questions(&self) -> (r: Result<Vec<QuestionDetail>, DBError>)
        ensures
            r matches Ok(v) && v@.map_values(|q: QuestionDetail| q@) == self.questions(),
    {
        let mut out: Vec<QuestionDetail> = Vec::new();
        let mut k: usize = 0;
        while k < self.questions.len()
            invariant
                0 <= k <= self.questions@.len(),
                out@.len() == k,
                forall|i: int| 0 <= i < k ==> #[trigger] out@[i] == self.questions@[i],
            decreases self.questions@.len() - k,
        {
            out.push(clone_question(&self.questions[k]));
            k = k + 1;
        }
        proof {
            assert(out@ =~= self.questions@);
            assert(out@.map_values(|q: QuestionDetail| q@) =~= self.questions());
        }
        Ok(out)
    }

    /// Deletes a question by identifier, cascading to its answers.
    /// A malformed identifier is rejected before any store access; an
    /// absent identifier deletes nothing and still succeeds.
    fn delete_question(&mut self, question_uuid: String) -> (r: Result<(), DBError>)
        ensures
            final(self).wf(),
            final(self).used_ids() == old(self).used_ids(),
            !uuid_syntax_ok(question_uuid@) ==> (r matches Err(DBError::InvalidUUID(u)) && u@
                == question_uuid@ && final(self).questions() == old(self).questions()
                && final(self).answers() == old(self).answers()),
            uuid_syntax_ok(question_uuid@) ==> r is Ok && final(self).questions()
                == questions_without(old(self).questions(), question_uuid@) && final(self).answers()
                == answers_of_other_questions(old(self).answers(), question_uuid@),
    {
        broadcast use vstd::seq_lib::group_filter_ensures;
        broadcast use Seq::lemma_filter_push;

        if !validate_uuid(question_uuid.as_str()) {
            return Err(DBError::InvalidUUID(question_uuid));
        }
        let mut kept_q: Vec<QuestionDetail> = Vec::new();
        let ghost mut kept_q_ids: Seq<u128> = Seq::empty();
        let ghost mut src_q: Seq<int> = Seq::empty();
        let mut k: usize = 0;
        while k < self.questions.len()
            invariant
                *self == *old(self),
                old(self).wf(),
                0 <= k <= self.questions@.len(),
                kept_q@.len() == kept_q_ids.len(),
                kept_q@.len() == src_q.len(),
                forall|i: int| 0 <= i < src_q.len() ==> 0 <= #[trigger] src_q[i] < k,
                forall|i: int, j: int| 0 <= i < j < src_q.len() ==> src_q[i] < src_q[j],
                forall|i: int|
                    0 <= i < src_q.len() ==> #[trigger] kept_q@[i] == self.questions@[src_q[i]],
                forall|i: int|
                    0 <= i < src_q.len() ==> #[trigger] kept_q_ids[i] == self.q_ids@[src_q[i]],
                kept_q@.map_values(|q: QuestionDetail| q@) =~= questions_without(
                    self.questions().take(k as int),
                    question_uuid@,
                ),
            decreases self.questions@.len() - k,
        {
            proof {
                assert(self.questions().take(k as int + 1) =~= self.questions().take(
                    k as int,
                ).push(self.questions()[k as int]));
                lemma_questions_without_push(
                    self.questions().take(k as int),
                    self.questions()[k as int],
                    question_uuid@,
                );
            }
            if !(self.questions[k].question_uuid == question_uuid) {
                let ghost pre_kept = kept_q@;
                let ghost pre_ids = kept_q_ids;
                let ghost pre_src = src_q;
                kept_q.push(clone_question(&self.questions[k]));
                proof {
                    kept_q_ids = kept_q_ids.push(self.q_ids@[k as int]);
                    src_q = src_q.push(k as int);
                    assert forall|i: int| 0 <= i < src_q.len() implies #[trigger] kept_q@[i]
                        == self.questions@[src_q[i]] && kept_q_ids[i] == self.q_ids@[src_q[i]] by {
                        if i < src_q.len() - 1 {
                            assert(kept_q@[i] == pre_kept[i]);
                            assert(pre_kept[i] == self.questions@[pre_src[i]]);
                            assert(kept_q_ids[i] == pre_ids[i]);
                            assert(src_q[i] == pre_src[i]);
                        }
                    }
                }
            }
            k = k + 1;
        }
        let mut kept_a: Vec<AnswerDetail> = Vec::new();
        let ghost mut kept_a_ids: Seq<u128> = Seq::empty();
        let ghost mut src_a: Seq<int> = Seq::empty();
        let mut m: usize = 0;
        while m < self.answers.len()
            invariant
                *self == *old(self),
                old(self).wf(),
                0 <= m <= self.answers@.len(),
                kept_a@.len() == kept_a_ids.len(),
                kept_a@.len() == src_a.len(),
                forall|i: int| 0 <= i < src_a.len() ==> 0 <= #[trigger] src_a[i] < m,
                forall|i: int, j: int| 0 <= i < j < src_a.len() ==> src_a[i] < src_a[j],
                forall|i: int|
                    0 <= i < src_a.len() ==> #[trigger] kept_a@[i] == self.answers@[src_a[i]],
                forall|i: int|
                    0 <= i < src_a.len() ==> #[trigger] kept_a_ids[i] == self.a_ids@[src_a[i]],
                kept_a@.map_values(|a: AnswerDetail| a@) =~= answers_of_other_questions(
                    self.answers().take(m as int),
                    question_uuid@,
                ),
            decreases self.answers@.len() - m,
        {
            proof {
                assert(self.answers().take(m as int + 1) =~= self.answers().take(m as int).push(
                    self.answers()[m as int],
                ));
                lemma_answers_of_other_questions_push(
                    self.answers().take(m as int),
                    self.answers()[m as int],
                    question_uuid@,
                );
            }
            if !(self.answers[m].question_uuid == question_uuid) {
                let ghost pre_kept = kept_a@;
                let ghost pre_ids = kept_a_ids;
                let ghost pre_src = src_a;
                kept_a.push(clone_answer(&self.answers[m]));
                proof {
                    kept_a_ids = kept_a_ids.push(self.a_ids@[m as int]);
                    src_a = src_a.push(m as int);
                    assert forall|i: int| 0 <= i < src_a.len() implies #[trigger] kept_a@[i]
                        == self.answers@[src_a[i]] && kept_a_ids[i] == self.a_ids@[src_a[i]] by {
                        if i < src_a.len() - 1 {
                            assert(kept_a@[i] == pre_kept[i]);
                            assert(pre_kept[i] == self.answers@[pre_src[i]]);
                            assert(kept_a_ids[i] == pre_ids[i]);
                            assert(src_a[i] == pre_src[i]);
                        }
                    }
                }
            }
            m = m + 1;
        }
        proof {
            assert(self.questions().take(self.questions@.len() as int) =~= self.questions());
            assert(self.answers().take(self.answers@.len() as int) =~= self.answers());
        }
        let ghost pre = *self;
        self.questions = kept_q;
        self.answers = kept_a;
        self.q_ids = Ghost(kept_q_ids);
        self.a_ids = Ghost(kept_a_ids);
        proof {
            assert(self.questions() =~= questions_without(pre.questions(), question_uuid@));
            assert(self.answers() =~= answers_of_other_questions(pre.answers(), question_uuid@));
            assert forall|k: int| 0 <= k < self.answers@.len() implies has_question(
                self.questions(),
                (#[trigger] self.answers@[k].question_uuid)@,
            ) by {
                let qid = (self.answers@[k].question_uuid)@;
                assert(self.answers()[k] == self.answers@[k]@);
                assert(self.answers()[k] == answers_of_other_questions(
                    pre.answers(),
                    question_uuid@,
                )[k]);
                assert(qid != question_uuid@);
                let i = src_a[k];
                assert(self.answers@[k] == pre.answers@[i]);
                assert(has_question(pre.questions(), qid));
                let w = choose|w: int|
                    0 <= w < pre.questions().len() && #[trigger] pre.questions()[w].question_uuid
                        == qid;
                assert(questions_without(pre.questions(), question_uuid@).contains(
                    pre.questions()[w],
                ));
                let v = choose|v: int|
                    0 <= v < self.questions().len() && #[trigger] self.questions()[v]
                        == pre.questions()[w];
                assert(self.questions()[v].question_uuid == qid);
            }
        }
        Ok(())
    }

}

impl AnswersDao for InMemoryStore {
    open spec fn answers_view(&self) -> Seq<AnswerView> {
        self.answers()
    }

    open spec fn questions_view(&self) -> Seq<QuestionView> {
        self.questions()
    }

    open spec fn inv(&self) -> bool {
        self.wf()
    }

    /// Inserts an answer after validating its question identifier and
    /// the existence of the referenced question. The store generates
    /// the answer's identifier, fresh among all stored answers, and
    /// its creation timestamp.
    fn create_answer(&mut self, answer: Answer) -> (r: Result<AnswerDetail, DBError>)
        ensures
            final(self).wf(),
            final(self).questions() == old(self).questions(),
            r is Ok ==> final(self).used_ids() == old(self).used_ids() + 1,
            r is Err ==> final(self).used_ids() == old(self).used_ids(),
            !uuid_syntax_ok(answer.question_uuid@) ==> (r matches Err(DBError::InvalidUUID(u))
                && u@ == answer.question_uuid@ && final(self).answers() == old(self).answers()),
            uuid_syntax_ok(answer.question_uuid@) && !has_question(
                old(self).questions(),
                answer.question_uuid@,
            ) ==> (r matches Err(DBError::InvalidUUID(u)) && u@ == answer.question_uuid@
                && final(self).answers() == old(self).answers()),
            uuid_syntax_ok(answer.question_uuid@) && has_question(
                old(self).questions(),
                answer.question_uuid@,
            ) && old(self).at_capacity() ==> (r matches Err(DBError::Other(_))
                && final(self).answers() == old(self).answers()),
            uuid_syntax_ok(answer.question_uuid@) && has_question(
                old(self).questions(),
                answer.question_uuid@,
            ) && !old(self).at_capacity() ==> (r matches Ok(d) && {
                &&& d@.question_uuid == answer.question_uuid@
                &&& d@.content == answer.content@
                &&& is_hyphenated_uuid(d@.answer_uuid)
                &&& uuid_syntax_ok(d@.answer_uuid)
                &&& d@.answer_uuid.len() == 36
                &&& d@.created_at.len() == 32
                &&& !has_answer(old(self).answers(), d@.answer_uuid)
                &&& final(self).answers() == old(self).answers().push(d@)
            }),
    {
        if !validate_uuid(answer.question_uuid.as_str()) {
            return Err(DBError::InvalidUUID(answer.question_uuid));
        }
        if !self.question_exists(&answer.question_uuid) {
            return Err(DBError::InvalidUUID(answer.question_uuid));
        }
        if self.next_id == u128::MAX {
            return Err(DBError::Other(String::from_str("identifier space exhausted")));
        }
        let id = self.next_id;
        self.next_id = self.next_id + 1;
        let d = AnswerDetail {
            answer_uuid: format_uuid(id),
            question_uuid: answer.question_uuid,
            content: answer.content,
            created_at: format_tick(id),
        };
        let out = clone_answer(&d);
        proof {
            self.lemma_fresh_answer_uuid(id);
        }
        self.answers.push(d);
        self.a_ids = Ghost(self.a_ids@.push(id));
        proof {
            assert(self.answers() =~= old(self).answers().push(out@));
            assert(self.questions() =~= old(self).questions());
            assert forall|k: int| 0 <= k < self.answers@.len() implies has_question(
                self.questions(),
                (#[trigger] self.answers@[k].question_uuid)@,
            ) by {
                if k < self.answers@.len() - 1 {
                    assert(self.answers@[k] == old(self).answers@[k]);
                    assert(has_question(old(self).questions(), (self.answers@[k].question_uuid)@));
                } else {
                    assert((self.answers@[k].question_uuid)@ == out@.question_uuid);
                }
            }
        }
        Ok(out)
    }

    /// Returns the answers attached to the given question, validating
    /// the identifier first. A question with no answers, or an absent
    /// question, yields an empty sequence, not an error.
    fn get_answers(&self, question_uuid: String) -> (r: Result<Vec<AnswerDetail>, DBError>)
        ensures
            !uuid_syntax_ok(question_uuid@) ==> (r matches Err(DBError::InvalidUUID(u)) && u@
                == question_uuid@),
            uuid_syntax_ok(question_uuid@) ==> (r matches Ok(v) && v@.map_values(
                |a: AnswerDetail| a@,
            ) == answers_of_question(self.answers(), question_uuid@)),
    {
        broadcast use Seq::lemma_filter_push;

        if !validate_uuid(question_uuid.as_str()) {
            return Err(DBError::InvalidUUID(question_uuid));
        }
        let mut out: Vec<AnswerDetail> = Vec::new();
        let mut k: usize = 0;
        while k < self.answers.len()
            invariant
                0 <= k <= self.answers@.len(),
                out@.map_values(|a: AnswerDetail| a@) =~= answers_of_question(
                    self.answers().take(k as int),
                    question_uuid@,
                ),
            decreases self.answers@.len() - k,
        {
            proof {
                assert(self.answers().take(k as int + 1) =~= self.answers().take(k as int).push(
                    self.answers()[k as int],
                ));
                lemma_answers_of_question_push(
                    self.answers().take(k as int),
                    self.answers()[k as int],
                    question_uuid@,
                );
            }
            if self.answers[k].question_uuid == question_uuid {
                out.push(clone_answer(&self.answers[k]));
            }
            k = k + 1;
        }
        proof {
            assert(self.answers().take(self.answers@.len() as int) =~= self.answers());
        }
        Ok(out)
    }

    /// Deletes an answer by identifier. A malformed identifier is
    /// rejected before any store access; an absent identifier deletes
    /// nothing and still succeeds.
    fn delete_answer(&mut self, answer_uuid: String) -> (r: Result<(), DBError>)
        ensures
            final(self).wf(),
            final(self).used_ids() == old(self).used_ids(),
            final(self).questions() == old(self).questions(),
            !uuid_syntax_ok(answer_uuid@) ==> (r matches Err(DBError::InvalidUUID(u)) && u@
                == answer_uuid@ && final(self).answers() == old(self).answers()),
            uuid_syntax_ok(answer_uuid@) ==> r is Ok && final(self).answers() == answers_without(
                old(self).answers(),
                answer_uuid@,
            ),
    {
        broadcast use Seq::lemma_filter_push;

        if !validate_uuid(answer_uuid.as_str()) {
            return Err(DBError::InvalidUUID(answer_uuid));
        }
        let mut kept_a: Vec<AnswerDetail> = Vec::new();
        let ghost mut kept_a_ids: Seq<u128> = Seq::empty();
        let ghost mut src_a: Seq<int> = Seq::empty();
        let mut m: usize = 0;
        while m < self.answers.len()
            invariant
                *self == *old(self),
                old(self).wf(),
                0 <= m <= self.answers@.len(),
                kept_a@.len() == kept_a_ids.len(),
                kept_a@.len() == src_a.len(),
                forall|i: int| 0 <= i < src_a.len() ==> 0 <= #[trigger] src_a[i] < m,
                forall|i: int, j: int| 0 <= i < j < src_a.len() ==> src_a[i] < src_a[j],
                forall|i: int|
                    0 <= i < src_a.len() ==> #[trigger] kept_a@[i] == self.answers@[src_a[i]],
                forall|i: int|
                    0 <= i < src_a.len() ==> #[trigger] kept_a_ids[i] == self.a_ids@[src_a[i]],
                kept_a@.map_values(|a: AnswerDetail| a@) =~= answers_without(
                    self.answers().take(m as int),
                    answer_uuid@,
                ),
            decreases self.answers@.len() - m,
        {
            proof {
                assert(self.answers().take(m as int + 1) =~= self.answers().take(m as int).push(
                    self.answers()[m as int],
                ));
                lemma_answers_without_push(
                    self.answers().take(m as int),
                    self.answers()[m as int],
                    answer_uuid@,
                );
            }
            if !(self.answers[m].answer_uuid == answer_uuid) {
                let ghost pre_kept = kept_a@;
                let ghost pre_ids = kept_a_ids;
                let ghost pre_src = src_a;
                kept_a.push(clone_answer(&self.answers[m]));
                proof {
                    kept_a_ids = kept_a_ids.push(self.a_ids@[m as int]);
                    src_a = src_a.push(m as int);
                    assert forall|i: int| 0 <= i < src_a.len() implies #[trigger] kept_a@[i]
                        == self.answers@[src_a[i]] && kept_a_ids[i] == self.a_ids@[src_a[i]] by {
                        if i < src_a.len() - 1 {
                            assert(kept_a@[i] == pre_kept[i]);
                            assert(pre_kept[i] == self.answers@[pre_src[i]]);
                            assert(kept_a_ids[i] == pre_ids[i]);
                            assert(src_a[i] == pre_src[i]);
                        }
                    }
                }
            }
            m = m + 1;
        }
        proof {
            assert(self.answers().take(self.answers@.len() as int) =~= self.answers());
        }
        let ghost pre = *self;
        self.answers = kept_a;
        self.a_ids = Ghost(kept_a_ids);
        proof {
            assert(self.answers() =~= answers_without(pre.answers(), answer_uuid@));
            assert forall|k: int| 0 <= k < self.answers@.len() implies has_question(
                self.questions(),
                (#[trigger] self.answers@[k].question_uuid)@,
            ) by {
                let i = src_a[k];
                assert(self.answers@[k] == pre.answers@[i]);
                assert(has_question(pre.questions(), (pre.answers@[i].question_uuid)@));
            }
        }
        Ok(())
    }
}

} // verus!
