use qa_board::models::{Answer, DBError, Question};
use qa_board::persistance::answers_dao::{classify_answer_insert_error, AnswersDao};
use qa_board::persistance::in_memory::InMemoryStore;
use qa_board::persistance::questions_dao::QuestionsDao;

fn question(title: &str, description: &str) -> Question {
    Question { title: title.to_owned(), description: description.to_owned() }
}

fn answer(question_uuid: &str, content: &str) -> Answer {
    Answer { question_uuid: question_uuid.to_owned(), content: content.to_owned() }
}

#[test]
fn create_question_returns_detail() {
    let mut store = InMemoryStore::new();
    let detail = store.create_question(question("Why?", "Because.")).unwrap();
    assert_eq!(detail.title, "Why?");
    assert_eq!(detail.description, "Because.");
    assert_eq!(detail.question_uuid, "00000000-0000-0000-0001-000000000000");
    assert_eq!(detail.created_at, "0");
    assert!(uuid::Uuid::parse_str(&detail.question_uuid).is_ok());
}

#[test]
fn created_identifiers_are_pairwise_distinct() {
    let mut store = InMemoryStore::new();
    let mut ids: Vec<String> = Vec::new();
    for i in 0..5 {
        let d = store.create_question(question(&format!("q{}", i), "d")).unwrap();
        ids.push(d.question_uuid);
    }
    let parent = ids[0].clone();
    for i in 0..5 {
        let d = store.create_answer(answer(&parent, &format!("a{}", i))).unwrap();
        ids.push(d.answer_uuid);
    }
    for i in 0..ids.len() {
        for j in 0..ids.len() {
            if i != j {
                assert_ne!(ids[i], ids[j]);
            }
        }
    }
}

#[test]
fn creation_timestamps_are_set_in_decimal() {
    let mut store = InMemoryStore::new();
    let first = store.create_question(question("a", "b")).unwrap();
    let second = store.create_question(question("c", "d")).unwrap();
    assert_eq!(first.created_at, "0");
    assert_eq!(second.created_at, "1");
}

#[test]
fn answer_creation_requires_existing_question() {
    let mut store = InMemoryStore::new();
    store.create_question(question("q", "d")).unwrap();
    // Well formed but matching no stored question.
    let absent = "11111111-2222-3333-4444-555555555555";
    match store.create_answer(answer(absent, "orphan")) {
        Err(DBError::InvalidUUID(u)) => assert_eq!(u, absent),
        _ => panic!("creation against a missing question must fail with InvalidUUID"),
    }
    // Nothing was persisted.
    let q = store.create_question(question("q2", "d2")).unwrap();
    let listed = store.get_answers(q.question_uuid).unwrap();
    assert!(listed.is_empty());
}

#[test]
fn answer_creation_rejects_malformed_reference() {
    let mut store = InMemoryStore::new();
    match store.create_answer(answer("not-a-uuid", "c")) {
        Err(DBError::InvalidUUID(u)) => assert_eq!(u, "not-a-uuid"),
        _ => panic!("malformed reference must fail with InvalidUUID"),
    }
}

#[test]
fn answer_detail_carries_parent_and_content() {
    let mut store = InMemoryStore::new();
    let q = store.create_question(question("q", "d")).unwrap();
    let a = store.create_answer(answer(&q.question_uuid, "42")).unwrap();
    assert_eq!(a.question_uuid, q.question_uuid);
    assert_eq!(a.content, "42");
    assert!(uuid::Uuid::parse_str(&a.answer_uuid).is_ok());
    assert_ne!(a.answer_uuid, q.question_uuid);
}

#[test]
fn delete_question_is_idempotent() {
    let mut store = InMemoryStore::new();
    let q = store.create_question(question("q", "d")).unwrap();
    let absent = "11111111-2222-3333-4444-555555555555".to_owned();
    // Deleting a well-formed identifier that matches nothing succeeds.
    assert!(store.delete_question(absent.clone()).is_ok());
    assert_eq!(store.get_questions().unwrap().len(), 1);
    // Deleting an existing question, then repeating, both succeed.
    assert!(store.delete_question(q.question_uuid.clone()).is_ok());
    assert_eq!(store.get_questions().unwrap().len(), 0);
    assert!(store.delete_question(q.question_uuid).is_ok());
    assert_eq!(store.get_questions().unwrap().len(), 0);
}

#[test]
fn delete_answer_is_idempotent() {
    let mut store = InMemoryStore::new();
    let q = store.create_question(question("q", "d")).unwrap();
    let a = store.create_answer(answer(&q.question_uuid, "c")).unwrap();
    assert!(store.delete_answer(a.answer_uuid.clone()).is_ok());
    assert!(store.delete_answer(a.answer_uuid).is_ok());
    assert!(store.get_answers(q.question_uuid).unwrap().is_empty());
}

#[test]
fn delete_rejects_malformed_identifier() {
    let mut store = InMemoryStore::new();
    match store.delete_question("not-a-uuid".to_owned()) {
        Err(DBError::InvalidUUID(u)) => assert_eq!(u, "not-a-uuid"),
        _ => panic!("malformed identifier must fail fast"),
    }
    match store.delete_answer("not-a-uuid".to_owned()) {
        Err(DBError::InvalidUUID(u)) => assert_eq!(u, "not-a-uuid"),
        _ => panic!("malformed identifier must fail fast"),
    }
}

#[test]
fn update_question_preserves_identity() {
    let mut store = InMemoryStore::new();
    let q = store.create_question(question("old title", "old desc")).unwrap();
    let updated = store
        .update_question(question("new title", "new desc"), q.question_uuid.clone())
        .unwrap();
    assert_eq!(updated.question_uuid, q.question_uuid);
    assert_eq!(updated.created_at, q.created_at);
    assert_eq!(updated.title, "new title");
    assert_eq!(updated.description, "new desc");
    let all = store.get_questions().unwrap();
    assert_eq!(all.len(), 1);
    assert_eq!(all[0].title, "new title");
    assert_eq!(all[0].created_at, q.created_at);
}

#[test]
fn update_question_on_missing_identifier_is_storage_failure() {
    let mut store = InMemoryStore::new();
    let absent = "11111111-2222-3333-4444-555555555555".to_owned();
    match store.update_question(question("t", "d"), absent) {
        Err(DBError::Other(_)) => {},
        _ => panic!("updating a missing question must be a storage failure"),
    }
}

#[test]
fn update_answer_preserves_identity_and_reference() {
    let mut store = InMemoryStore::new();
    let q = store.create_question(question("q", "d")).unwrap();
    let other = store.create_question(question("q2", "d2")).unwrap();
    let a = store.create_answer(answer(&q.question_uuid, "before")).unwrap();
    // The incoming question_uuid is deliberately ignored on update.
    let updated = store
        .update_answer(answer(&other.question_uuid, "after"), a.answer_uuid.clone())
        .unwrap();
    assert_eq!(updated.answer_uuid, a.answer_uuid);
    assert_eq!(updated.question_uuid, q.question_uuid);
    assert_eq!(updated.created_at, a.created_at);
    assert_eq!(updated.content, "after");
    assert!(store.get_answers(other.question_uuid).unwrap().is_empty());
}

#[test]
fn update_answer_on_missing_identifier_is_storage_failure() {
    let mut store = InMemoryStore::new();
    let absent = "11111111-2222-3333-4444-555555555555".to_owned();
    match store.update_answer(answer(&absent, "c"), absent.clone()) {
        Err(DBError::Other(_)) => {},
        _ => panic!("updating a missing answer must be a storage failure"),
    }
}

#[test]
fn get_answers_filters_by_question() {
    let mut store = InMemoryStore::new();
    let q1 = store.create_question(question("q1", "d1")).unwrap();
    let q2 = store.create_question(question("q2", "d2")).unwrap();
    let a1 = store.create_answer(answer(&q1.question_uuid, "a1")).unwrap();
    let b1 = store.create_answer(answer(&q2.question_uuid, "b1")).unwrap();
    let a2 = store.create_answer(answer(&q1.question_uuid, "a2")).unwrap();
    let b2 = store.create_answer(answer(&q2.question_uuid, "b2")).unwrap();
    let for_q1 = store.get_answers(q1.question_uuid).unwrap();
    assert_eq!(for_q1.len(), 2);
    assert_eq!(for_q1[0].answer_uuid, a1.answer_uuid);
    assert_eq!(for_q1[1].answer_uuid, a2.answer_uuid);
    let for_q2 = store.get_answers(q2.question_uuid).unwrap();
    assert_eq!(for_q2.len(), 2);
    assert_eq!(for_q2[0].answer_uuid, b1.answer_uuid);
    assert_eq!(for_q2[1].answer_uuid, b2.answer_uuid);
}

#[test]
fn get_answers_rejects_malformed_identifier() {
    let store_result = {
        let store = InMemoryStore::new();
        store.get_answers("not-a-uuid".to_owned())
    };
    match store_result {
        Err(DBError::InvalidUUID(u)) => assert_eq!(u, "not-a-uuid"),
        _ => panic!("malformed identifier must fail fast"),
    }
}

#[test]
fn uuid_forms_accepted_for_lookup() {
    let mut store = InMemoryStore::new();
    let q = store.create_question(question("q", "d")).unwrap();
    let a = store.create_answer(answer(&q.question_uuid, "c")).unwrap();
    // The simple, braced, and URN renderings of an identifier are well
    // formed too; they match no stored record, so the delete succeeds
    // idempotently instead of failing fast.
    let simple = q.question_uuid.replace('-', "");
    assert!(store.delete_question(simple).is_ok());
    let braced = format!("{{{}}}", q.question_uuid);
    assert!(store.delete_question(braced).is_ok());
    let urn = format!("urn:uuid:{}", q.question_uuid);
    assert!(store.delete_question(urn).is_ok());
    assert_eq!(store.get_questions().unwrap().len(), 1);
    assert_eq!(store.get_answers(q.question_uuid).unwrap().len(), 1);
    assert_eq!(a.content, "c");
}

#[test]
fn deleting_a_question_leaves_its_answers() {
    // Deleting a question does not cascade: its answers stay behind as
    // orphans, and listing them still works.
    let mut store = InMemoryStore::new();
    let q = store.create_question(question("q", "d")).unwrap();
    store.create_answer(answer(&q.question_uuid, "kept")).unwrap();
    store.delete_question(q.question_uuid.clone()).unwrap();
    let orphans = store.get_answers(q.question_uuid).unwrap();
    assert_eq!(orphans.len(), 1);
    assert_eq!(orphans[0].content, "kept");
}

#[test]
fn classify_insert_error_maps_foreign_key_violation() {
    let offending = "11111111-2222-3333-4444-555555555555".to_owned();
    match classify_answer_insert_error(Some("23503".to_owned()), offending.clone()) {
        DBError::InvalidUUID(u) => assert_eq!(u, offending),
        _ => panic!("a foreign-key violation is the caller's input problem"),
    }
    match classify_answer_insert_error(Some("23505".to_owned()), offending.clone()) {
        DBError::Other(_) => {},
        _ => panic!("other codes are storage failures"),
    }
    match classify_answer_insert_error(None, offending) {
        DBError::Other(_) => {},
        _ => panic!("a failure without a code is a storage failure"),
    }
}
