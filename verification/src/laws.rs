//! Laws of the persistence layer, stated over the same views and
//! spec functions that the operations' contracts use.

use vstd::prelude::*;
use crate::models::{AnswerView, QuestionView};
use crate::store::{
    answers_of_question, answers_without, has_answer, has_question,
    lemma_answers_of_question_push, lemma_answers_without_push, lemma_questions_without_push,
    questions_without,
};

verus! {

/// A question table in which every row differs from `id` is unchanged
/// by deleting `id`.
proof fn lemma_questions_without_noop(qs: Seq<QuestionView>, id: Seq<char>)
    requires
        forall|k: int| 0 <= k < qs.len() ==> (#[trigger] qs[k]).question_uuid != id,
    ensures
        questions_without(qs, id) == qs,
    decreases qs.len(),
{
    if qs.len() == 0 {
        assert(questions_without(qs, id) =~= qs);
    } else {
        lemma_questions_without_noop(qs.drop_last(), id);
        lemma_questions_without_push(qs.drop_last(), qs.last(), id);
        assert(qs =~= qs.drop_last().push(qs.last()));
    }
}

/// Creating a question and immediately listing the questions includes
/// the created record, whose generated identifier and timestamp are
/// non-empty.
pub proof fn lemma_created_question_is_listed(qs: Seq<QuestionView>, d: QuestionView)
    requires
        d.question_uuid.len() == 36,
        d.created_at.len() == 32,
    ensures
        qs.push(d).contains(d),
        d.question_uuid.len() > 0,
        d.created_at.len() > 0,
{
    assert(qs.push(d)[qs.len() as int] == d);
}

/// Deleting a question removes every row carrying its identifier, and
/// deleting the same identifier a second time succeeds as the
/// identity: the table no longer holds such a row, so nothing changes.
pub proof fn lemma_delete_question_idempotent(qs: Seq<QuestionView>, id: Seq<char>)
    ensures
        !has_question(questions_without(qs, id), id),
        questions_without(questions_without(qs, id), id) == questions_without(qs, id),
{
    broadcast use vstd::seq_lib::group_filter_ensures;

    let once = questions_without(qs, id);
    assert forall|k: int| 0 <= k < once.len() implies (#[trigger] once[k]).question_uuid != id by {
        assert(once[k] == qs.filter(|q: QuestionView| q.question_uuid != id)[k]);
    }
    lemma_questions_without_noop(once, id);
}

/// Two answers created in turn for one question are exactly what
/// listing that question's answers then returns, in creation order,
/// when the question had no answers before.
pub proof fn lemma_two_created_answers_listed(
    ans: Seq<AnswerView>,
    a1: AnswerView,
    a2: AnswerView,
    qid: Seq<char>,
)
    requires
        answers_of_question(ans, qid) == Seq::<AnswerView>::empty(),
        a1.question_uuid == qid,
        a2.question_uuid == qid,
    ensures
        answers_of_question(ans.push(a1).push(a2), qid) == seq![a1, a2],
{
    lemma_answers_of_question_push(ans, a1, qid);
    lemma_answers_of_question_push(ans.push(a1), a2, qid);
    assert(answers_of_question(ans.push(a1).push(a2), qid) =~= seq![a1, a2]);
}

/// Deleting an answer removes exactly the rows carrying its
/// identifier: an answer survives the deletion if and only if it was
/// stored and carries another identifier.
pub proof fn lemma_delete_answer_removes_only_that_row(ans: Seq<AnswerView>, id: Seq<char>)
    ensures
        forall|x: AnswerView| #[trigger] answers_without(ans, id).contains(x) <==> (ans.contains(x)
            && x.answer_uuid != id),
        !has_answer(answers_without(ans, id), id),
    decreases ans.len(),
{
    broadcast use vstd::seq_lib::group_filter_ensures;

    let kept = answers_without(ans, id);
    assert forall|x: AnswerView| #[trigger] kept.contains(x) implies (ans.contains(x)
        && x.answer_uuid != id) by {
        let k = choose|k: int| 0 <= k < kept.len() && kept[k] == x;
        assert(kept[k] == ans.filter(|a: AnswerView| a.answer_uuid != id)[k]);
        ans.lemma_filter_contains_rev(|a: AnswerView| a.answer_uuid != id, x);
    }
    assert forall|x: AnswerView| ans.contains(x) && x.answer_uuid != id implies #[trigger] kept.contains(
        x,
    ) by {
        let k = choose|k: int| 0 <= k < ans.len() && ans[k] == x;
        assert(ans.filter(|a: AnswerView| a.answer_uuid != id).contains(ans[k]));
    }
    assert forall|k: int| 0 <= k < kept.len() implies (#[trigger] kept[k]).answer_uuid != id by {
        assert(kept[k] == ans.filter(|a: AnswerView| a.answer_uuid != id)[k]);
    }
}

/// An answer table in which every row differs from `id` is unchanged
/// by deleting `id`.
proof fn lemma_answers_without_noop(ans: Seq<AnswerView>, id: Seq<char>)
    requires
        forall|k: int| 0 <= k < ans.len() ==> (#[trigger] ans[k]).answer_uuid != id,
    ensures
        answers_without(ans, id) == ans,
    decreases ans.len(),
{
    if ans.len() == 0 {
        assert(answers_without(ans, id) =~= ans);
    } else {
        lemma_answers_without_noop(ans.drop_last(), id);
        lemma_answers_without_push(ans.drop_last(), ans.last(), id);
        assert(ans =~= ans.drop_last().push(ans.last()));
    }
}

/// When identifiers are pairwise distinct, as they are in a
/// well-formed store, and row `i` carries the deleted identifier, the
/// deletion removes exactly that row and no other.
pub proof fn lemma_delete_answer_removes_exactly_one(ans: Seq<AnswerView>, id: Seq<char>, i: int)
    requires
        forall|k1: int, k2: int|
            0 <= k1 < k2 < ans.len() ==> (#[trigger] ans[k1]).answer_uuid != (
            #[trigger] ans[k2]).answer_uuid,
        0 <= i < ans.len(),
        ans[i].answer_uuid == id,
    ensures
        answers_without(ans, id) == ans.remove(i),
    decreases ans.len(),
{
    let dl = ans.drop_last();
    assert(ans =~= dl.push(ans.last()));
    lemma_answers_without_push(dl, ans.last(), id);
    if i == ans.len() - 1 {
        assert forall|k: int| 0 <= k < dl.len() implies (#[trigger] dl[k]).answer_uuid != id by {
            assert(dl[k] == ans[k]);
            assert(ans[k].answer_uuid != ans[i].answer_uuid);
        }
        lemma_answers_without_noop(dl, id);
        assert(ans.remove(i) =~= dl);
    } else {
        assert(ans[i].answer_uuid != ans[ans.len() - 1].answer_uuid);
        assert(ans.last().answer_uuid != id);
        assert forall|k1: int, k2: int| 0 <= k1 < k2 < dl.len() implies (
        #[trigger] dl[k1]).answer_uuid != (#[trigger] dl[k2]).answer_uuid by {
            assert(dl[k1] == ans[k1]);
            assert(dl[k2] == ans[k2]);
            assert(ans[k1].answer_uuid != ans[k2].answer_uuid);
        }
        assert(dl[i] == ans[i]);
        lemma_delete_answer_removes_exactly_one(dl, id, i);
        assert(answers_without(ans, id) == answers_without(dl, id).push(ans.last()));
        assert(ans.remove(i) =~= dl.remove(i).push(ans.last()));
    }
}

/// After an answer is deleted, the listing for its question no longer
/// includes it: the listing of the remaining table holds no row with
/// the deleted identifier.
pub proof fn lemma_deleted_answer_not_listed(ans: Seq<AnswerView>, id: Seq<char>, qid: Seq<char>)
    ensures
        !has_answer(answers_of_question(answers_without(ans, id), qid), id),
{
    broadcast use vstd::seq_lib::group_filter_ensures;

    let kept = answers_without(ans, id);
    let listed = answers_of_question(kept, qid);
    assert forall|k: int| 0 <= k < listed.len() implies (#[trigger] listed[k]).answer_uuid
        != id by {
        assert(listed[k] == kept.filter(|a: AnswerView| a.question_uuid == qid)[k]);
        kept.lemma_filter_contains_rev(|a: AnswerView| a.question_uuid == qid, listed[k]);
        let m = choose|m: int| 0 <= m < kept.len() && kept[m] == listed[k];
        assert(kept[m] == ans.filter(|a: AnswerView| a.answer_uuid != id)[m]);
    }
}

} // verus!
