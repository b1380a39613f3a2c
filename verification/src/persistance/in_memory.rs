//! The in-memory backend: an ordered collection with linear scans,
//! suitable for tests and prototyping.
//!
//! Identifiers are generated from per-collection counters through
//! [`gen_uuid_chars`], with a distinct kind tag per collection, so every
//! identifier ever handed out is distinct from every other — across
//! questions and answers both. Creation timestamps come from a logical
//! clock rendered in decimal.

use crate::identifier::{
    dec_string, gen_uuid, gen_uuid_chars, is_uuid_str, lemma_gen_uuid_injective,
    lemma_gen_uuid_valid, uuid_is_valid,
};
use crate::models::{
    Answer, AnswerDetail, AnswerDetailView, DBError, Question, QuestionDetail, QuestionDetailView,
};
use crate::persistance::answers_dao::AnswersDao;
use crate::persistance::questions_dao::QuestionsDao;
use vstd::prelude::*;

verus! {

/// Kind tag embedded in generated question identifiers.
pub const QUESTION_KIND: u64 = 1;

/// Kind tag embedded in generated answer identifiers.
pub const ANSWER_KIND: u64 = 2;

/// A process-local store holding both collections, so that answer
/// creation can check its parent question exists. Callers share it behind
/// whatever mutual exclusion the process uses; each operation sees and
/// leaves a consistent state.
pub struct InMemoryStore {
    questions: Vec<QuestionDetail>,
    answers: Vec<AnswerDetail>,
    next_question_id: u64,
    next_answer_id: u64,
    clock: u64,
}

impl InMemoryStore {
    /// The persisted questions, in insertion order.
    pub closed spec fn questions_view(&self) -> Seq<QuestionDetailView> {
        self.questions@.map_values(|q: QuestionDetail| q@)
    }

    /// The persisted answers, in insertion order.
    pub closed spec fn answers_view(&self) -> Seq<AnswerDetailView> {
        self.answers@.map_values(|a: AnswerDetail| a@)
    }

    /// The identifiers of the questions currently stored.
    pub closed spec fn question_uuid_set(&self) -> Set<Seq<char>> {
        Set::new(
            |u: Seq<char>|
                exists|i: int|
                    0 <= i < self.questions@.len() && (#[trigger] self.questions@[i])@.question_uuid
                        == u,
        )
    }

    /// The question at index `i` carries an identifier generated from a
    /// counter value below the current question counter.
    pub closed spec fn question_id_ok(&self, i: int) -> bool {
        exists|c: u64|
            c < self.next_question_id && self.questions@[i]@.question_uuid == gen_uuid_chars(
                QUESTION_KIND,
                c,
            )
    }

    /// The answer at index `i` carries an identifier generated from a
    /// counter value below the current answer counter.
    pub closed spec fn answer_id_ok(&self, i: int) -> bool {
        exists|c: u64|
            c < self.next_answer_id && self.answers@[i]@.answer_uuid == gen_uuid_chars(
                ANSWER_KIND,
                c,
            )
    }

    /// The question counter or the clock can no longer be bumped; the
    /// next question creation is refused as a storage failure.
    pub closed spec fn questions_at_capacity(&self) -> bool {
        self.next_question_id == u64::MAX || self.clock == u64::MAX
    }

    /// The answer counter or the clock can no longer be bumped; the next
    /// answer creation is refused as a storage failure.
    pub closed spec fn answers_at_capacity(&self) -> bool {
        self.next_answer_id == u64::MAX || self.clock == u64::MAX
    }

    /// Well-formedness: every stored identifier was generated from a
    /// counter value below the current one with the collection's kind
    /// tag, and identifiers are pairwise distinct within each collection.
    pub closed spec fn wf(&self) -> bool {
        &&& forall|i: int| 0 <= i < self.questions@.len() ==> #[trigger] self.question_id_ok(i)
        &&& forall|i: int, j: int|
            0 <= i < j < self.questions@.len() ==> (#[trigger] self.questions@[i])@.question_uuid
                != (#[trigger] self.questions@[j])@.question_uuid
        &&& forall|i: int| 0 <= i < self.answers@.len() ==> #[trigger] self.answer_id_ok(i)
        &&& forall|i: int, j: int|
            0 <= i < j < self.answers@.len() ==> (#[trigger] self.answers@[i])@.answer_uuid != (
            #[trigger] self.answers@[j])@.answer_uuid
    }

    /// Makes an owned copy of a stored question record.
    fn clone_question(q: &QuestionDetail) -> (r: QuestionDetail)
        ensures
            r@ == q@,
    {
        QuestionDetail {
            question_uuid: q.question_uuid.clone(),
            title: q.title.clone(),
            description: q.description.clone(),
            created_at: q.created_at.clone(),
        }
    }

    /// Makes an owned copy of a stored answer record.
    fn clone_answer(a: &AnswerDetail) -> (r: AnswerDetail)
        ensures
            r@ == a@,
    {
        AnswerDetail {
            answer_uuid: a.answer_uuid.clone(),
            question_uuid: a.question_uuid.clone(),
            content: a.content.clone(),
            created_at: a.created_at.clone(),
        }
    }

    /// An empty store, ready for use.
    pub fn new() -> (r: InMemoryStore)
        ensures
            r.wf(),
            r.questions_view() == Seq::<QuestionDetailView>::empty(),
            r.answers_view() == Seq::<AnswerDetailView>::empty(),
    {
        let r = InMemoryStore {
            questions: Vec::new(),
            answers: Vec::new(),
            next_question_id: 0,
            next_answer_id: 0,
            clock: 0,
        };
        proof {
            assert(r.questions_view() =~= Seq::<QuestionDetailView>::empty());
            assert(r.answers_view() =~= Seq::<AnswerDetailView>::empty());
        }
        r
    }
}

/// The questions half of well-formedness carries over to a store whose
/// questions and question counter are unchanged.
proof fn lemma_questions_carry(pre: InMemoryStore, post: InMemoryStore)
    requires
        pre.wf(),
        post.questions@ == pre.questions@,
        post.next_question_id >= pre.next_question_id,
    ensures
        forall|i: int| 0 <= i < post.questions@.len() ==> #[trigger] post.question_id_ok(i),
        forall|i: int, j: int|
            0 <= i < j < post.questions@.len() ==> (#[trigger] post.questions@[i])@.question_uuid
                != (#[trigger] post.questions@[j])@.question_uuid,
{
    assert forall|i: int| 0 <= i < post.questions@.len() implies #[trigger] post.question_id_ok(
        i,
    ) by {
        assert(post.questions@[i] == pre.questions@[i]);
        assert(pre.question_id_ok(i));
        let c = choose|c: u64|
            c < pre.next_question_id && pre.questions@[i]@.question_uuid == gen_uuid_chars(
                QUESTION_KIND,
                c,
            );
        assert(c < post.next_question_id && post.questions@[i]@.question_uuid == gen_uuid_chars(
            QUESTION_KIND,
            c,
        ));
    }
    assert forall|i: int, j: int| 0 <= i < j < post.questions@.len() implies (
    #[trigger] post.questions@[i])@.question_uuid != (
    #[trigger] post.questions@[j])@.question_uuid by {
        assert(post.questions@[i] == pre.questions@[i] && post.questions@[j] == pre.questions@[j]);
    }
}

/// The answers half of well-formedness carries over to a store whose
/// answers and answer counter are unchanged.
proof fn lemma_answers_carry(pre: InMemoryStore, post: InMemoryStore)
    requires
        pre.wf(),
        post.answers@ == pre.answers@,
        post.next_answer_id >= pre.next_answer_id,
    ensures
        forall|i: int| 0 <= i < post.answers@.len() ==> #[trigger] post.answer_id_ok(i),
        forall|i: int, j: int|
            0 <= i < j < post.answers@.len() ==> (#[trigger] post.answers@[i])@.answer_uuid != (
            #[trigger] post.answers@[j])@.answer_uuid,
{
    assert forall|i: int| 0 <= i < post.answers@.len() implies #[trigger] post.answer_id_ok(i) by {
        assert(post.answers@[i] == pre.answers@[i]);
        assert(pre.answer_id_ok(i));
        let c = choose|c: u64|
            c < pre.next_answer_id && pre.answers@[i]@.answer_uuid == gen_uuid_chars(
                ANSWER_KIND,
                c,
            );
        assert(c < post.next_answer_id && post.answers@[i]@.answer_uuid == gen_uuid_chars(
            ANSWER_KIND,
            c,
        ));
    }
    assert forall|i: int, j: int| 0 <= i < j < post.answers@.len() implies (
    #[trigger] post.answers@[i])@.answer_uuid != (#[trigger] post.answers@[j])@.answer_uuid by {
        assert(post.answers@[i] == pre.answers@[i] && post.answers@[j] == pre.answers@[j]);
    }
}

/// Appending a question generated from the current counter keeps the
/// store well formed, and the new identifier differs from every stored
/// one.
proof fn lemma_question_push_wf(pre: InMemoryStore, post: InMemoryStore, stored: QuestionDetail)
    requires
        pre.wf(),
        stored@.question_uuid == gen_uuid_chars(QUESTION_KIND, pre.next_question_id),
        pre.next_question_id < u64::MAX,
        post.questions@ == pre.questions@.push(stored),
        post.answers@ == pre.answers@,
        post.next_question_id == pre.next_question_id + 1,
        post.next_answer_id == pre.next_answer_id,
    ensures
        post.wf(),
        post.questions_view() == pre.questions_view().push(stored@),
        forall|i: int|
            0 <= i < pre.questions_view().len() ==> (
            #[trigger] pre.questions_view()[i]).question_uuid != stored@.question_uuid,
{
    let id = pre.next_question_id;
    lemma_answers_carry(pre, post);
    assert forall|i: int| 0 <= i < pre.questions@.len() implies (
    #[trigger] pre.questions@[i])@.question_uuid != gen_uuid_chars(QUESTION_KIND, id) by {
        assert(pre.question_id_ok(i));
        let c = choose|c: u64|
            c < pre.next_question_id && pre.questions@[i]@.question_uuid == gen_uuid_chars(
                QUESTION_KIND,
                c,
            );
        if pre.questions@[i]@.question_uuid == gen_uuid_chars(QUESTION_KIND, id) {
            lemma_gen_uuid_injective(QUESTION_KIND, c, QUESTION_KIND, id);
        }
    }
    assert forall|i: int| 0 <= i < post.questions@.len() implies #[trigger] post.question_id_ok(
        i,
    ) by {
        if i < pre.questions@.len() {
            assert(post.questions@[i] == pre.questions@[i]);
            assert(pre.question_id_ok(i));
            let c = choose|c: u64|
                c < pre.next_question_id && pre.questions@[i]@.question_uuid == gen_uuid_chars(
                    QUESTION_KIND,
                    c,
                );
            assert(c < post.next_question_id && post.questions@[i]@.question_uuid
                == gen_uuid_chars(QUESTION_KIND, c));
        } else {
            assert(post.questions@[i] == stored);
            assert(id < post.next_question_id && post.questions@[i]@.question_uuid
                == gen_uuid_chars(QUESTION_KIND, id));
        }
    }
    assert forall|a: int, b: int| 0 <= a < b < post.questions@.len() implies (
    #[trigger] post.questions@[a])@.question_uuid != (
    #[trigger] post.questions@[b])@.question_uuid by {
        assert(post.questions@[a] == pre.questions@[a]);
        if b < pre.questions@.len() {
            assert(post.questions@[b] == pre.questions@[b]);
        } else {
            assert(post.questions@[b] == stored);
        }
    }
    assert(post.questions_view() =~= pre.questions_view().push(stored@));
    assert forall|i: int| 0 <= i < pre.questions_view().len() implies (
    #[trigger] pre.questions_view()[i]).question_uuid != stored@.question_uuid by {
        assert(pre.questions_view()[i] == pre.questions@[i]@);
    }
}

/// Appending an answer generated from the current counter keeps the
/// store well formed, and the new identifier differs from every stored
/// one.
proof fn lemma_answer_push_wf(pre: InMemoryStore, post: InMemoryStore, stored: AnswerDetail)
    requires
        pre.wf(),
        stored@.answer_uuid == gen_uuid_chars(ANSWER_KIND, pre.next_answer_id),
        pre.next_answer_id < u64::MAX,
        post.answers@ == pre.answers@.push(stored),
        post.questions@ == pre.questions@,
        post.next_answer_id == pre.next_answer_id + 1,
        post.next_question_id == pre.next_question_id,
    ensures
        post.wf(),
        post.answers_view() == pre.answers_view().push(stored@),
        post.question_uuid_set() == pre.question_uuid_set(),
        forall|i: int|
            0 <= i < pre.answers_view().len() ==> (#[trigger] pre.answers_view()[i]).answer_uuid
                != stored@.answer_uuid,
{
    let id = pre.next_answer_id;
    lemma_questions_carry(pre, post);
    assert forall|i: int| 0 <= i < pre.answers@.len() implies (
    #[trigger] pre.answers@[i])@.answer_uuid != gen_uuid_chars(ANSWER_KIND, id) by {
        assert(pre.answer_id_ok(i));
        let c = choose|c: u64|
            c < pre.next_answer_id && pre.answers@[i]@.answer_uuid == gen_uuid_chars(
                ANSWER_KIND,
                c,
            );
        if pre.answers@[i]@.answer_uuid == gen_uuid_chars(ANSWER_KIND, id) {
            lemma_gen_uuid_injective(ANSWER_KIND, c, ANSWER_KIND, id);
        }
    }
    assert forall|i: int| 0 <= i < post.answers@.len() implies #[trigger] post.answer_id_ok(i) by {
        if i < pre.answers@.len() {
            assert(post.answers@[i] == pre.answers@[i]);
            assert(pre.answer_id_ok(i));
            let c = choose|c: u64|
                c < pre.next_answer_id && pre.answers@[i]@.answer_uuid == gen_uuid_chars(
                    ANSWER_KIND,
                    c,
                );
            assert(c < post.next_answer_id && post.answers@[i]@.answer_uuid == gen_uuid_chars(
                ANSWER_KIND,
                c,
            ));
        } else {
            assert(post.answers@[i] == stored);
            assert(id < post.next_answer_id && post.answers@[i]@.answer_uuid == gen_uuid_chars(
                ANSWER_KIND,
                id,
            ));
        }
    }
    assert forall|a: int, b: int| 0 <= a < b < post.answers@.len() implies (
    #[trigger] post.answers@[a])@.answer_uuid != (#[trigger] post.answers@[b])@.answer_uuid by {
        assert(post.answers@[a] == pre.answers@[a]);
        if b < pre.answers@.len() {
            assert(post.answers@[b] == pre.answers@[b]);
        } else {
            assert(post.answers@[b] == stored);
        }
    }
    assert(post.answers_view() =~= pre.answers_view().push(stored@));
    assert(post.question_uuid_set() =~= pre.question_uuid_set());
    assert forall|i: int| 0 <= i < pre.answers_view().len() implies (
    #[trigger] pre.answers_view()[i]).answer_uuid != stored@.answer_uuid by {
        assert(pre.answers_view()[i] == pre.answers@[i]@);
    }
}

/// Keeping a filtered subset of the questions keeps the store well
/// formed.
proof fn lemma_question_filter_wf(pre: InMemoryStore, post: InMemoryStore, uuid: Seq<char>)
    requires
        pre.wf(),
        post.questions_view() == pre.questions_view().filter(
            |q: QuestionDetailView| q.question_uuid != uuid,
        ),
        post.answers@ == pre.answers@,
        post.next_question_id == pre.next_question_id,
        post.next_answer_id == pre.next_answer_id,
    ensures
        post.wf(),
{
    broadcast use vstd::prelude::Seq::lemma_filter_contains_rev;

    lemma_answers_carry(pre, post);
    let pred = |q: QuestionDetailView| q.question_uuid != uuid;
    let oldv = pre.questions_view();
    let newv = post.questions_view();
    assert forall|a: int, b: int| 0 <= a < b < oldv.len() implies (#[trigger] oldv[a]).question_uuid
        != (#[trigger] oldv[b]).question_uuid by {
        assert(oldv[a] == pre.questions@[a]@ && oldv[b] == pre.questions@[b]@);
    }
    crate::laws::lemma_filter_preserves_distinct(
        oldv,
        pred,
        |q: QuestionDetailView| q.question_uuid,
    );
    assert forall|a: int, b: int| 0 <= a < b < post.questions@.len() implies (
    #[trigger] post.questions@[a])@.question_uuid != (
    #[trigger] post.questions@[b])@.question_uuid by {
        assert(post.questions@[a]@ == newv[a] && post.questions@[b]@ == newv[b]);
    }
    assert forall|k: int| 0 <= k < post.questions@.len() implies #[trigger] post.question_id_ok(
        k,
    ) by {
        assert(post.questions@[k]@ == newv[k]);
        assert(newv.contains(newv[k]));
        assert(oldv.contains(newv[k]));
        let j = choose|j: int| 0 <= j < oldv.len() && oldv[j] == newv[k];
        assert(oldv[j] == pre.questions@[j]@);
        assert(pre.question_id_ok(j));
        let c = choose|c: u64|
            c < pre.next_question_id && pre.questions@[j]@.question_uuid == gen_uuid_chars(
                QUESTION_KIND,
                c,
            );
        assert(c < post.next_question_id && post.questions@[k]@.question_uuid == gen_uuid_chars(
            QUESTION_KIND,
            c,
        ));
    }
}

/// Keeping a filtered subset of the answers keeps the store well formed.
proof fn lemma_answer_filter_wf(pre: InMemoryStore, post: InMemoryStore, uuid: Seq<char>)
    requires
        pre.wf(),
        post.answers_view() == pre.answers_view().filter(
            |a: AnswerDetailView| a.answer_uuid != uuid,
        ),
        post.questions@ == pre.questions@,
        post.next_question_id == pre.next_question_id,
        post.next_answer_id == pre.next_answer_id,
    ensures
        post.wf(),
        post.question_uuid_set() == pre.question_uuid_set(),
{
    broadcast use vstd::prelude::Seq::lemma_filter_contains_rev;

    lemma_questions_carry(pre, post);
    let pred = |a: AnswerDetailView| a.answer_uuid != uuid;
    let oldv = pre.answers_view();
    let newv = post.answers_view();
    assert forall|a: int, b: int| 0 <= a < b < oldv.len() implies (#[trigger] oldv[a]).answer_uuid
        != (#[trigger] oldv[b]).answer_uuid by {
        assert(oldv[a] == pre.answers@[a]@ && oldv[b] == pre.answers@[b]@);
    }
    crate::laws::lemma_filter_preserves_distinct(oldv, pred, |a: AnswerDetailView| a.answer_uuid);
    assert forall|a: int, b: int| 0 <= a < b < post.answers@.len() implies (
    #[trigger] post.answers@[a])@.answer_uuid != (#[trigger] post.answers@[b])@.answer_uuid by {
        assert(post.answers@[a]@ == newv[a] && post.answers@[b]@ == newv[b]);
    }
    assert forall|k: int| 0 <= k < post.answers@.len() implies #[trigger] post.answer_id_ok(k) by {
        assert(post.answers@[k]@ == newv[k]);
        assert(newv.contains(newv[k]));
        assert(oldv.contains(newv[k]));
        let j = choose|j: int| 0 <= j < oldv.len() && oldv[j] == newv[k];
        assert(oldv[j] == pre.answers@[j]@);
        assert(pre.answer_id_ok(j));
        let c = choose|c: u64|
            c < pre.next_answer_id && pre.answers@[j]@.answer_uuid == gen_uuid_chars(
                ANSWER_KIND,
                c,
            );
        assert(c < post.next_answer_id && post.answers@[k]@.answer_uuid == gen_uuid_chars(
            ANSWER_KIND,
            c,
        ));
    }
    assert(post.question_uuid_set() =~= pre.question_uuid_set());
}

/// Replacing a question in place, keeping its identifier, keeps the
/// store well formed.
proof fn lemma_question_update_wf(
    pre: InMemoryStore,
    post: InMemoryStore,
    j: int,
    stored: QuestionDetail,
)
    requires
        pre.wf(),
        0 <= j < pre.questions@.len(),
        stored@.question_uuid == pre.questions@[j]@.question_uuid,
        post.questions@ == pre.questions@.update(j, stored),
        post.answers@ == pre.answers@,
        post.next_question_id == pre.next_question_id,
        post.next_answer_id == pre.next_answer_id,
    ensures
        post.wf(),
        post.questions_view() == pre.questions_view().update(j, stored@),
{
    lemma_answers_carry(pre, post);
    assert forall|a: int| 0 <= a < post.questions@.len() implies (
    #[trigger] post.questions@[a])@.question_uuid == pre.questions@[a]@.question_uuid by {
        if a != j {
            assert(post.questions@[a] == pre.questions@[a]);
        } else {
            assert(post.questions@[a] == stored);
        }
    }
    assert forall|a: int, b: int| 0 <= a < b < post.questions@.len() implies (
    #[trigger] post.questions@[a])@.question_uuid != (
    #[trigger] post.questions@[b])@.question_uuid by {
        assert(pre.questions@[a]@.question_uuid != pre.questions@[b]@.question_uuid);
    }
    assert forall|k: int| 0 <= k < post.questions@.len() implies #[trigger] post.question_id_ok(
        k,
    ) by {
        assert(pre.question_id_ok(k));
        let c = choose|c: u64|
            c < pre.next_question_id && pre.questions@[k]@.question_uuid == gen_uuid_chars(
                QUESTION_KIND,
                c,
            );
        assert(c < post.next_question_id && post.questions@[k]@.question_uuid == gen_uuid_chars(
            QUESTION_KIND,
            c,
        ));
    }
    assert(post.questions_view() =~= pre.questions_view().update(j, stored@));
}

/// Replacing an answer in place, keeping its identifier and parent
/// reference, keeps the store well formed.
proof fn lemma_answer_update_wf(
    pre: InMemoryStore,
    post: InMemoryStore,
    j: int,
    stored: AnswerDetail,
)
    requires
        pre.wf(),
        0 <= j < pre.answers@.len(),
        stored@.answer_uuid == pre.answers@[j]@.answer_uuid,
        post.answers@ == pre.answers@.update(j, stored),
        post.questions@ == pre.questions@,
        post.next_question_id == pre.next_question_id,
        post.next_answer_id == pre.next_answer_id,
    ensures
        post.wf(),
        post.answers_view() == pre.answers_view().update(j, stored@),
        post.question_uuid_set() == pre.question_uuid_set(),
{
    lemma_questions_carry(pre, post);
    assert forall|a: int| 0 <= a < post.answers@.len() implies (
    #[trigger] post.answers@[a])@.answer_uuid == pre.answers@[a]@.answer_uuid by {
        if a != j {
            assert(post.answers@[a] == pre.answers@[a]);
        } else {
            assert(post.answers@[a] == stored);
        }
    }
    assert forall|a: int, b: int| 0 <= a < b < post.answers@.len() implies (
    #[trigger] post.answers@[a])@.answer_uuid != (#[trigger] post.answers@[b])@.answer_uuid by {
        assert(pre.answers@[a]@.answer_uuid != pre.answers@[b]@.answer_uuid);
    }
    assert forall|k: int| 0 <= k < post.answers@.len() implies #[trigger] post.answer_id_ok(k) by {
        assert(pre.answer_id_ok(k));
        let c = choose|c: u64|
            c < pre.next_answer_id && pre.answers@[k]@.answer_uuid == gen_uuid_chars(
                ANSWER_KIND,
                c,
            );
        assert(c < post.next_answer_id && post.answers@[k]@.answer_uuid == gen_uuid_chars(
            ANSWER_KIND,
            c,
        ));
    }
    assert(post.answers_view() =~= pre.answers_view().update(j, stored@));
    assert(post.question_uuid_set() =~= pre.question_uuid_set());
}

impl QuestionsDao for InMemoryStore {
    open spec fn inv(&self) -> bool {
        self.wf()
    }

    open spec fn questions(&self) -> Seq<QuestionDetailView> {
        self.questions_view()
    }

    fn create_question(&mut self, question: Question) -> (r: Result<QuestionDetail, DBError>)
        ensures
            r is Err ==> old(self).questions_at_capacity(),
    {
        let ghost pre = *self;
        if self.next_question_id == u64::MAX || self.clock == u64::MAX {
            return Err(DBError::Other("question store is full".to_owned()));
        }
        let id = self.next_question_id;
        let uuid = gen_uuid(QUESTION_KIND, id);
        let ts = dec_string(self.clock);
        let stored = QuestionDetail {
            question_uuid: uuid.clone(),
            title: question.title.clone(),
            description: question.description.clone(),
            created_at: ts.clone(),
        };
        let d = QuestionDetail {
            question_uuid: uuid,
            title: question.title,
            description: question.description,
            created_at: ts,
        };
        let ghost stored_snap = stored;
        self.questions.push(stored);
        self.next_question_id = id + 1;
        self.clock = self.clock + 1;
        proof {
            lemma_gen_uuid_valid(QUESTION_KIND, id);
            lemma_question_push_wf(pre, *self, stored_snap);
        }
        Ok(d)
    }

    fn get_questions(&self) -> (r: Result<Vec<QuestionDetail>, DBError>)
        ensures
            r is Ok,
    {
        let mut out: Vec<QuestionDetail> = Vec::new();
        let mut i: usize = 0;
        while i < self.questions.len()
            invariant
                i <= self.questions@.len(),
                out@.len() == i as int,
                forall|j: int| 0 <= j < i ==> (#[trigger] out@[j])@ == self.questions@[j]@,
            decreases self.questions@.len() - i,
        {
            let copy = Self::clone_question(&self.questions[i]);
            out.push(copy);
            i = i + 1;
        }
        proof {
            assert(out@.map_values(|d: QuestionDetail| d@) =~= self.questions_view());
        }
        Ok(out)
    }

    fn delete_question(&mut self, question_uuid: String) -> (r: Result<(), DBError>)
        ensures
            is_uuid_str(question_uuid@) ==> r is Ok,
    {
        let ghost pre = *self;
        if !uuid_is_valid(question_uuid.as_str()) {
            return Err(DBError::InvalidUUID(question_uuid));
        }
        let ghost pred = |q: QuestionDetailView| q.question_uuid != question_uuid@;
        let mut kept: Vec<QuestionDetail> = Vec::new();
        let mut i: usize = 0;
        while i < self.questions.len()
            invariant
                i <= self.questions@.len(),
                kept@.map_values(|d: QuestionDetail| d@) =~= self.questions_view().subrange(
                    0,
                    i as int,
                ).filter(pred),
                pred == (|q: QuestionDetailView| q.question_uuid != question_uuid@),
            decreases self.questions@.len() - i,
        {
            broadcast use vstd::prelude::Seq::lemma_filter_push;

            let ghost prefix = self.questions_view().subrange(0, i as int);
            let keep = !(self.questions[i].question_uuid == question_uuid);
            if keep {
                let copy = Self::clone_question(&self.questions[i]);
                kept.push(copy);
            }
            proof {
                assert(self.questions_view().subrange(0, i + 1 as int) =~= prefix.push(
                    self.questions_view()[i as int],
                ));
                assert(keep == pred(self.questions_view()[i as int]));
                if keep {
                    assert(kept@.map_values(|d: QuestionDetail| d@) =~= prefix.filter(pred).push(
                        self.questions_view()[i as int],
                    ));
                }
            }
            i = i + 1;
        }
        proof {
            assert(self.questions_view().subrange(0, self.questions@.len() as int)
                =~= self.questions_view());
        }
        self.questions = kept;
        proof {
            lemma_question_filter_wf(pre, *self, question_uuid@);
        }
        Ok(())
    }

    fn update_question(&mut self, question: Question, question_uuid: String) -> (r: Result<
        QuestionDetail,
        DBError,
    >)
        ensures
            r is Err && is_uuid_str(question_uuid@) ==> forall|j: int|
                0 <= j < old(self).questions().len() ==> (
                #[trigger] old(self).questions()[j]).question_uuid != question_uuid@,
    {
        let ghost pre = *self;
        if !uuid_is_valid(question_uuid.as_str()) {
            return Err(DBError::InvalidUUID(question_uuid));
        }
        let mut i: usize = 0;
        while i < self.questions.len()
            invariant
                i <= self.questions@.len(),
                *self == pre,
                *old(self) == pre,
                pre.wf(),
                is_uuid_str(question_uuid@),
                forall|j: int|
                    0 <= j < i ==> (#[trigger] self.questions@[j])@.question_uuid
                        != question_uuid@,
            decreases self.questions@.len() - i,
        {
            if self.questions[i].question_uuid == question_uuid {
                let d = QuestionDetail {
                    question_uuid,
                    title: question.title,
                    description: question.description,
                    created_at: self.questions[i].created_at.clone(),
                };
                let stored = Self::clone_question(&d);
                let ghost stored_snap = stored;
                self.questions.set(i, stored);
                proof {
                    let j = i as int;
                    lemma_question_update_wf(pre, *self, j, stored_snap);
                    assert(pre.questions_view()[j] == pre.questions@[j]@);
                    assert(0 <= j < old(self).questions_view().len());
                    assert(old(self).questions_view()[j].question_uuid == d@.question_uuid);
                    assert(d@.created_at == old(self).questions_view()[j].created_at);
                    assert(self.questions_view() == old(self).questions_view().update(j, d@));
                    assert(QuestionsDao::questions(old(self)) == old(self).questions_view());
                    assert(QuestionsDao::questions(self) == self.questions_view());
                    assert(exists|j: int|
                        {
                            &&& 0 <= j < QuestionsDao::questions(old(self)).len()
                            &&& (#[trigger] QuestionsDao::questions(old(self))[j]).question_uuid
                                == d@.question_uuid
                            &&& d@.created_at == QuestionsDao::questions(old(self))[j].created_at
                            &&& QuestionsDao::questions(self) == QuestionsDao::questions(
                                old(self),
                            ).update(j, d@)
                        });
                }
                return Ok(d);
            }
            i = i + 1;
        }
        proof {
            assert forall|j: int| 0 <= j < QuestionsDao::questions(old(self)).len() implies (
            #[trigger] QuestionsDao::questions(old(self))[j]).question_uuid != question_uuid@ by {
                assert(self.questions@[j] == old(self).questions@[j]);
                assert(QuestionsDao::questions(old(self))[j] == old(self).questions@[j]@);
            }
        }
        Err(DBError::Other("question not found".to_owned()))
    }
}

impl AnswersDao for InMemoryStore {
    open spec fn inv(&self) -> bool {
        self.wf()
    }

    open spec fn answers(&self) -> Seq<AnswerDetailView> {
        self.answers_view()
    }

    open spec fn question_uuids(&self) -> Set<Seq<char>> {
        self.question_uuid_set()
    }

    fn create_answer(&mut self, answer: Answer) -> (r: Result<AnswerDetail, DBError>)
        ensures
            r is Err ==> !is_uuid_str(answer@.question_uuid) || !old(
                self,
            ).question_uuids().contains(answer@.question_uuid) || old(self).answers_at_capacity(),
    {
        let ghost pre = *self;
        if !uuid_is_valid(answer.question_uuid.as_str()) {
            return Err(DBError::InvalidUUID(answer.question_uuid));
        }
        let mut found = false;
        let mut i: usize = 0;
        while i < self.questions.len()
            invariant
                i <= self.questions@.len(),
                found ==> exists|j: int|
                    0 <= j < self.questions@.len() && (
                    #[trigger] self.questions@[j])@.question_uuid == answer@.question_uuid,
                !found ==> forall|j: int|
                    0 <= j < i ==> (#[trigger] self.questions@[j])@.question_uuid
                        != answer@.question_uuid,
            decreases self.questions@.len() - i,
        {
            if self.questions[i].question_uuid == answer.question_uuid {
                found = true;
            }
            i = i + 1;
        }
        proof {
            assert(self.question_uuid_set().contains(answer@.question_uuid) == found);
        }
        if !found {
            return Err(DBError::InvalidUUID(answer.question_uuid));
        }
        if self.next_answer_id == u64::MAX || self.clock == u64::MAX {
            return Err(DBError::Other("answer store is full".to_owned()));
        }
        let id = self.next_answer_id;
        let uuid = gen_uuid(ANSWER_KIND, id);
        let ts = dec_string(self.clock);
        let stored = AnswerDetail {
            answer_uuid: uuid.clone(),
            question_uuid: answer.question_uuid.clone(),
            content: answer.content.clone(),
            created_at: ts.clone(),
        };
        let d = AnswerDetail {
            answer_uuid: uuid,
            question_uuid: answer.question_uuid,
            content: answer.content,
            created_at: ts,
        };
        let ghost stored_snap = stored;
        self.answers.push(stored);
        self.next_answer_id = id + 1;
        self.clock = self.clock + 1;
        proof {
            lemma_gen_uuid_valid(ANSWER_KIND, id);
            lemma_answer_push_wf(pre, *self, stored_snap);
        }
        Ok(d)
    }

    fn get_answers(&self, question_uuid: String) -> (r: Result<Vec<AnswerDetail>, DBError>)
        ensures
            is_uuid_str(question_uuid@) ==> r is Ok,
    {
        if !uuid_is_valid(question_uuid.as_str()) {
            return Err(DBError::InvalidUUID(question_uuid));
        }
        let ghost pred = |a: AnswerDetailView| a.question_uuid == question_uuid@;
        let mut out: Vec<AnswerDetail> = Vec::new();
        let mut i: usize = 0;
        while i < self.answers.len()
            invariant
                i <= self.answers@.len(),
                out@.map_values(|d: AnswerDetail| d@) =~= self.answers_view().subrange(
                    0,
                    i as int,
                ).filter(pred),
                pred == (|a: AnswerDetailView| a.question_uuid == question_uuid@),
            decreases self.answers@.len() - i,
        {
            broadcast use vstd::prelude::Seq::lemma_filter_push;

            let ghost prefix = self.answers_view().subrange(0, i as int);
            let keep = self.answers[i].question_uuid == question_uuid;
            if keep {
                let copy = Self::clone_answer(&self.answers[i]);
                out.push(copy);
            }
            proof {
                assert(self.answers_view().subrange(0, i + 1 as int) =~= prefix.push(
                    self.answers_view()[i as int],
                ));
                assert(keep == pred(self.answers_view()[i as int]));
                if keep {
                    assert(out@.map_values(|d: AnswerDetail| d@) =~= prefix.filter(pred).push(
                        self.answers_view()[i as int],
                    ));
                }
            }
            i = i + 1;
        }
        proof {
            assert(self.answers_view().subrange(0, self.answers@.len() as int)
                =~= self.answers_view());
        }
        Ok(out)
    }

    fn delete_answer(&mut self, answer_uuid: String) -> (r: Result<(), DBError>)
        ensures
            is_uuid_str(answer_uuid@) ==> r is Ok,
    {
        let ghost pre = *self;
        if !uuid_is_valid(answer_uuid.as_str()) {
            return Err(DBError::InvalidUUID(answer_uuid));
        }
        let ghost pred = |a: AnswerDetailView| a.answer_uuid != answer_uuid@;
        let mut kept: Vec<AnswerDetail> = Vec::new();
        let mut i: usize = 0;
        while i < self.answers.len()
            invariant
                i <= self.answers@.len(),
                kept@.map_values(|d: AnswerDetail| d@) =~= self.answers_view().subrange(
                    0,
                    i as int,
                ).filter(pred),
                pred == (|a: AnswerDetailView| a.answer_uuid != answer_uuid@),
            decreases self.answers@.len() - i,
        {
            broadcast use vstd::prelude::Seq::lemma_filter_push;

            let ghost prefix = self.answers_view().subrange(0, i as int);
            let keep = !(self.answers[i].answer_uuid == answer_uuid);
            if keep {
                let copy = Self::clone_answer(&self.answers[i]);
                kept.push(copy);
            }
            proof {
                assert(self.answers_view().subrange(0, i + 1 as int) =~= prefix.push(
                    self.answers_view()[i as int],
                ));
                assert(keep == pred(self.answers_view()[i as int]));
                if keep {
                    assert(kept@.map_values(|d: AnswerDetail| d@) =~= prefix.filter(pred).push(
                        self.answers_view()[i as int],
                    ));
                }
            }
            i = i + 1;
        }
        proof {
            assert(self.answers_view().subrange(0, self.answers@.len() as int)
                =~= self.answers_view());
        }
        self.answers = kept;
        proof {
            lemma_answer_filter_wf(pre, *self, answer_uuid@);
        }
        Ok(())
    }

    fn update_answer(&mut self, updated_answer: Answer, answer_uuid: String) -> (r: Result<
        AnswerDetail,
        DBError,
    >)
        ensures
            r is Err && is_uuid_str(answer_uuid@) ==> forall|j: int|
                0 <= j < old(self).answers().len() ==> (
                #[trigger] old(self).answers()[j]).answer_uuid != answer_uuid@,
    {
        let ghost pre = *self;
        if !uuid_is_valid(answer_uuid.as_str()) {
            return Err(DBError::InvalidUUID(answer_uuid));
        }
        let mut i: usize = 0;
        while i < self.answers.len()
            invariant
                i <= self.answers@.len(),
                *self == pre,
                *old(self) == pre,
                pre.wf(),
                is_uuid_str(answer_uuid@),
                forall|j: int|
                    0 <= j < i ==> (#[trigger] self.answers@[j])@.answer_uuid != answer_uuid@,
            decreases self.answers@.len() - i,
        {
            if self.answers[i].answer_uuid == answer_uuid {
                let d = AnswerDetail {
                    answer_uuid,
                    question_uuid: self.answers[i].question_uuid.clone(),
                    content: updated_answer.content,
                    created_at: self.answers[i].created_at.clone(),
                };
                let stored = Self::clone_answer(&d);
                let ghost stored_snap = stored;
                self.answers.set(i, stored);
                proof {
                    let j = i as int;
                    lemma_answer_update_wf(pre, *self, j, stored_snap);
                    assert(pre.answers_view()[j] == pre.answers@[j]@);
                    assert(0 <= j < old(self).answers_view().len());
                    assert(old(self).answers_view()[j].answer_uuid == d@.answer_uuid);
                    assert(d@.question_uuid == old(self).answers_view()[j].question_uuid);
                    assert(d@.created_at == old(self).answers_view()[j].created_at);
                    assert(self.answers_view() == old(self).answers_view().update(j, d@));
                    assert(AnswersDao::answers(old(self)) == old(self).answers_view());
                    assert(AnswersDao::answers(self) == self.answers_view());
                    assert(exists|j: int|
                        {
                            &&& 0 <= j < AnswersDao::answers(old(self)).len()
                            &&& (#[trigger] AnswersDao::answers(old(self))[j]).answer_uuid
                                == d@.answer_uuid
                            &&& d@.question_uuid == AnswersDao::answers(old(self))[j].question_uuid
                            &&& d@.created_at == AnswersDao::answers(old(self))[j].created_at
                            &&& AnswersDao::answers(self) == AnswersDao::answers(
                                old(self),
                            ).update(j, d@)
                        });
                }
                return Ok(d);
            }
            i = i + 1;
        }
        proof {
            assert forall|j: int| 0 <= j < AnswersDao::answers(old(self)).len() implies (
            #[trigger] AnswersDao::answers(old(self))[j]).answer_uuid != answer_uuid@ by {
                assert(self.answers@[j] == old(self).answers@[j]);
                assert(AnswersDao::answers(old(self))[j] == old(self).answers@[j]@);
            }
        }
        Err(DBError::Other("answer not found".to_owned()))
    }
}


/// Identifier uniqueness: in a well-formed store, stored question
/// identifiers are pairwise distinct, stored answer identifiers are
/// pairwise distinct, and no question identifier ever equals an answer
/// identifier — the two collections embed different kind tags.
pub proof fn lemma_identifier_uniqueness(s: &InMemoryStore)
    requires
        s.wf(),
    ensures
        forall|i: int, j: int|
            0 <= i < j < s.questions_view().len() ==> (
            #[trigger] s.questions_view()[i]).question_uuid != (
            #[trigger] s.questions_view()[j]).question_uuid,
        forall|i: int, j: int|
            0 <= i < j < s.answers_view().len() ==> (#[trigger] s.answers_view()[i]).answer_uuid
                != (#[trigger] s.answers_view()[j]).answer_uuid,
        forall|i: int, j: int|
            0 <= i < s.questions_view().len() && 0 <= j < s.answers_view().len() ==> (
            #[trigger] s.questions_view()[i]).question_uuid != (
            #[trigger] s.answers_view()[j]).answer_uuid,
{
    assert forall|i: int, j: int| 0 <= i < j < s.questions_view().len() implies (
    #[trigger] s.questions_view()[i]).question_uuid != (
    #[trigger] s.questions_view()[j]).question_uuid by {
        assert(s.questions_view()[i] == s.questions@[i]@ && s.questions_view()[j]
            == s.questions@[j]@);
    }
    assert forall|i: int, j: int| 0 <= i < j < s.answers_view().len() implies (
    #[trigger] s.answers_view()[i]).answer_uuid != (#[trigger] s.answers_view()[j]).answer_uuid by {
        assert(s.answers_view()[i] == s.answers@[i]@ && s.answers_view()[j] == s.answers@[j]@);
    }
    assert forall|i: int, j: int|
        0 <= i < s.questions_view().len() && 0 <= j < s.answers_view().len() implies (
    #[trigger] s.questions_view()[i]).question_uuid != (
    #[trigger] s.answers_view()[j]).answer_uuid by {
        assert(s.questions_view()[i] == s.questions@[i]@ && s.answers_view()[j] == s.answers@[j]@);
        assert(s.question_id_ok(i) && s.answer_id_ok(j));
        let c1 = choose|c: u64|
            c < s.next_question_id && s.questions@[i]@.question_uuid == gen_uuid_chars(
                QUESTION_KIND,
                c,
            );
        let c2 = choose|c: u64|
            c < s.next_answer_id && s.answers@[j]@.answer_uuid == gen_uuid_chars(ANSWER_KIND, c);
        if s.questions@[i]@.question_uuid == s.answers@[j]@.answer_uuid {
            lemma_gen_uuid_injective(QUESTION_KIND, c1, ANSWER_KIND, c2);
        }
    }
}

/// The answers facade and the questions facade describe one store: an
/// identifier is in `question_uuid_set()` exactly when some stored
/// question carries it.
pub proof fn lemma_question_uuid_set_agrees(s: &InMemoryStore)
    ensures
        forall|u: Seq<char>|
            #[trigger] s.question_uuid_set().contains(u) <==> exists|i: int|
                0 <= i < s.questions_view().len() && (#[trigger] s.questions_view()[i]).question_uuid
                    == u,
{
    assert forall|u: Seq<char>|
        #[trigger] s.question_uuid_set().contains(u) <==> exists|i: int|
            0 <= i < s.questions_view().len() && (#[trigger] s.questions_view()[i]).question_uuid
                == u by {
        if s.question_uuid_set().contains(u) {
            let i = choose|i: int|
                0 <= i < s.questions@.len() && (#[trigger] s.questions@[i])@.question_uuid == u;
            assert(s.questions_view()[i] == s.questions@[i]@);
            assert(0 <= i < s.questions_view().len() && s.questions_view()[i].question_uuid == u);
        }
        if exists|i: int|
            0 <= i < s.questions_view().len() && (#[trigger] s.questions_view()[i]).question_uuid
                == u {
            let i = choose|i: int|
                0 <= i < s.questions_view().len() && (
                #[trigger] s.questions_view()[i]).question_uuid == u;
            assert(s.questions_view()[i] == s.questions@[i]@);
            assert(0 <= i < s.questions@.len() && s.questions@[i]@.question_uuid == u);
        }
    }
}

} // verus!
