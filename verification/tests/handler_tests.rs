use qa_board::handlers::{
    create_answer, create_question, delete_answer, delete_question, read_answers, read_questions,
    update_answer, update_question, APIError, HandlerError,
};
use qa_board::models::{Answer, AnswerId, Question, QuestionId, UpdateRequest};
use qa_board::persistance::in_memory::InMemoryStore;

fn question(title: &str, description: &str) -> Question {
    Question { title: title.to_owned(), description: description.to_owned() }
}

fn answer(question_uuid: &str, content: &str) -> Answer {
    Answer { question_uuid: question_uuid.to_owned(), content: content.to_owned() }
}

#[test]
fn scenario_question_and_answer_lifecycle() {
    let mut store = InMemoryStore::new();
    let q = create_question(question("Why?", "Because."), &mut store).unwrap();
    let a = create_answer(answer(&q.question_uuid, "42"), &mut store).unwrap();
    assert_eq!(a.question_uuid, q.question_uuid);
    assert_eq!(a.content, "42");

    let listed = read_answers(
        QuestionId { question_uuid: q.question_uuid.clone() },
        &store,
    )
    .unwrap();
    assert_eq!(listed.len(), 1);
    assert_eq!(listed[0].answer_uuid, a.answer_uuid);

    delete_question(
        QuestionId { question_uuid: q.question_uuid.clone() },
        &mut store,
    )
    .unwrap();
    assert!(read_questions(&store).unwrap().is_empty());
    // Orphans are allowed: the answer outlives its question.
    let after = read_answers(QuestionId { question_uuid: q.question_uuid }, &store).unwrap();
    assert_eq!(after.len(), 1);
}

#[test]
fn handlers_report_bad_request_on_malformed_identifiers() {
    let mut store = InMemoryStore::new();
    match delete_question(
        QuestionId { question_uuid: "not-a-uuid".to_owned() },
        &mut store,
    ) {
        Err(HandlerError::BadRequest(u)) => assert_eq!(u, "not-a-uuid"),
        _ => panic!("malformed identifier must be a bad request"),
    }
    match delete_answer(AnswerId { answer_uuid: "not-a-uuid".to_owned() }, &mut store) {
        Err(HandlerError::BadRequest(u)) => assert_eq!(u, "not-a-uuid"),
        _ => panic!("malformed identifier must be a bad request"),
    }
    match read_answers(
        QuestionId { question_uuid: "not-a-uuid".to_owned() },
        &store,
    ) {
        Err(HandlerError::BadRequest(u)) => assert_eq!(u, "not-a-uuid"),
        _ => panic!("malformed identifier must be a bad request"),
    }
    let request = UpdateRequest { uuid: "not-a-uuid".to_owned(), updated_entity: question("t", "d") };
    match update_question(request, &mut store) {
        Err(HandlerError::BadRequest(u)) => assert_eq!(u, "not-a-uuid"),
        _ => panic!("malformed identifier must be a bad request"),
    }
}

#[test]
fn update_handlers_apply_full_field_updates() {
    let mut store = InMemoryStore::new();
    let q = create_question(question("old", "old"), &mut store).unwrap();
    let request = UpdateRequest {
        uuid: q.question_uuid.clone(),
        updated_entity: question("new", "newer"),
    };
    let updated = update_question(request, &mut store).unwrap();
    assert_eq!(updated.question_uuid, q.question_uuid);
    assert_eq!(updated.created_at, q.created_at);
    assert_eq!(updated.title, "new");
    assert_eq!(updated.description, "newer");

    let a = create_answer(answer(&q.question_uuid, "before"), &mut store).unwrap();
    let request = UpdateRequest {
        uuid: a.answer_uuid.clone(),
        updated_entity: answer(&q.question_uuid, "after"),
    };
    let updated = update_answer(request, &mut store).unwrap();
    assert_eq!(updated.answer_uuid, a.answer_uuid);
    assert_eq!(updated.question_uuid, q.question_uuid);
    assert_eq!(updated.created_at, a.created_at);
    assert_eq!(updated.content, "after");
}

#[test]
fn update_on_missing_identifier_is_internal_error() {
    let mut store = InMemoryStore::new();
    let absent = "11111111-2222-3333-4444-555555555555";
    let request = UpdateRequest { uuid: absent.to_owned(), updated_entity: question("t", "d") };
    match update_question(request, &mut store) {
        Err(HandlerError::InternalError(_)) => {},
        _ => panic!("updating a missing question must be an internal error"),
    }
    let request = UpdateRequest {
        uuid: absent.to_owned(),
        updated_entity: answer(absent, "c"),
    };
    match update_answer(request, &mut store) {
        Err(HandlerError::InternalError(_)) => {},
        _ => panic!("updating a missing answer must be an internal error"),
    }
}

#[test]
fn answer_against_missing_question_is_bad_request() {
    let mut store = InMemoryStore::new();
    let absent = "11111111-2222-3333-4444-555555555555";
    match create_answer(answer(absent, "c"), &mut store) {
        Err(HandlerError::BadRequest(u)) => assert_eq!(u, absent),
        _ => panic!("an unresolvable parent reference must be a bad request"),
    }
}

#[test]
fn api_error_preserves_handler_error_shape() {
    let bad = APIError::from(HandlerError::BadRequest("why".to_owned()));
    match bad {
        APIError::BadRequest(s) => assert_eq!(s, "why"),
        _ => panic!("bad request maps to bad request"),
    }
    let internal = APIError::from(HandlerError::InternalError("oops".to_owned()));
    match internal {
        APIError::InternalError(s) => assert_eq!(s, "oops"),
        _ => panic!("internal error maps to internal error"),
    }
}

#[test]
fn read_questions_returns_insertion_order() {
    let mut store = InMemoryStore::new();
    let first = create_question(question("first", "1"), &mut store).unwrap();
    let second = create_question(question("second", "2"), &mut store).unwrap();
    let all = read_questions(&store).unwrap();
    assert_eq!(all.len(), 2);
    assert_eq!(all[0].question_uuid, first.question_uuid);
    assert_eq!(all[1].question_uuid, second.question_uuid);
}
