//! End-to-end behaviour of the in-memory store, the handlers and the
//! error translation, on concrete values.

use qa_store::dao::{AnswersDao, QuestionsDao};
use qa_store::handlers::{
    create_answer, create_question, delete_answer, delete_question, read_answers, read_questions,
    APIError,
};
use qa_store::handlers::handlers_inner::{handler_error_of, HandlerError};
use qa_store::identifier::validate_uuid;
use qa_store::models::{Answer, DBError, Question};
use qa_store::store::InMemoryStore;
use qa_store::translate::{foreign_key_violation, translate_insert_error};

fn question(title: &str, description: &str) -> Question {
    Question { title: title.to_string(), description: description.to_string() }
}

fn answer(question_uuid: &str, content: &str) -> Answer {
    Answer { question_uuid: question_uuid.to_string(), content: content.to_string() }
}

#[test]
fn malformed_identifier_fails_every_operation() {
    let mut store = InMemoryStore::new();
    let bad = "not-a-uuid";

    let r = store.delete_question(bad.to_string());
    assert_eq!(r, Err(DBError::InvalidUUID(bad.to_string())));

    let r = store.delete_answer(bad.to_string());
    assert_eq!(r, Err(DBError::InvalidUUID(bad.to_string())));

    let r = store.get_answers(bad.to_string());
    assert_eq!(r, Err(DBError::InvalidUUID(bad.to_string())));

    let r = store.create_answer(answer(bad, "content"));
    assert_eq!(r, Err(DBError::InvalidUUID(bad.to_string())));

    // Nothing was stored along the way.
    assert_eq!(store.get_questions().unwrap().len(), 0);
}

#[test]
fn malformed_identifier_is_a_client_error_at_the_boundary() {
    let mut store = InMemoryStore::new();
    let bad = "12345678-1234-1234-1234-12345678901x";

    let r = delete_question(bad.to_string(), &mut store);
    assert_eq!(r, Err(APIError::BadRequest(bad.to_string())));

    let r = read_answers(bad.to_string(), &store);
    assert_eq!(r, Err(APIError::BadRequest(bad.to_string())));

    let r = delete_answer(bad.to_string(), &mut store);
    assert_eq!(r, Err(APIError::BadRequest(bad.to_string())));
}

#[test]
fn answer_for_missing_question_is_rejected_and_not_stored() {
    let mut store = InMemoryStore::new();
    let absent = "67e55044-10b1-426f-9247-bb680e5fe0c8";

    let r = store.create_answer(answer(absent, "orphan"));
    assert_eq!(r, Err(DBError::InvalidUUID(absent.to_string())));

    let listed = store.get_answers(absent.to_string()).unwrap();
    assert_eq!(listed.len(), 0);
}

#[test]
fn created_question_appears_in_listing_with_generated_fields() {
    let mut store = InMemoryStore::new();
    let d = store.create_question(question("Q1", "D1")).unwrap();

    assert_eq!(d.title, "Q1");
    assert_eq!(d.description, "D1");
    assert!(!d.question_uuid.is_empty());
    assert!(!d.created_at.is_empty());
    assert!(validate_uuid(&d.question_uuid));

    let listed = store.get_questions().unwrap();
    assert_eq!(listed.len(), 1);
    assert_eq!(listed[0].question_uuid, d.question_uuid);
    assert_eq!(listed[0].title, "Q1");
    assert_eq!(listed[0].description, "D1");
    assert_eq!(listed[0].created_at, d.created_at);
}

#[test]
fn generated_identifiers_are_sequential_and_distinct() {
    let mut store = InMemoryStore::new();
    let d0 = store.create_question(question("a", "b")).unwrap();
    let d1 = store.create_question(question("c", "d")).unwrap();

    assert_eq!(d0.question_uuid, "00000000-0000-0000-0000-000000000000");
    assert_eq!(d1.question_uuid, "00000000-0000-0000-0000-000000000001");
    assert_eq!(d0.created_at, "00000000000000000000000000000000");
    assert_eq!(d1.created_at, "00000000000000000000000000000001");
    assert_ne!(d0.question_uuid, d1.question_uuid);
}

#[test]
fn deleting_a_question_is_idempotent() {
    let mut store = InMemoryStore::new();
    let d = store.create_question(question("Q", "D")).unwrap();

    assert_eq!(store.delete_question(d.question_uuid.clone()), Ok(()));
    assert_eq!(store.get_questions().unwrap().len(), 0);

    // Deleting the same identifier again still succeeds.
    assert_eq!(store.delete_question(d.question_uuid.clone()), Ok(()));
    assert_eq!(store.get_questions().unwrap().len(), 0);
}

#[test]
fn deleting_a_question_cascades_to_its_answers() {
    let mut store = InMemoryStore::new();
    let q1 = store.create_question(question("Q1", "D1")).unwrap();
    let q2 = store.create_question(question("Q2", "D2")).unwrap();
    store.create_answer(answer(&q1.question_uuid, "a1")).unwrap();
    let kept = store.create_answer(answer(&q2.question_uuid, "a2")).unwrap();

    assert_eq!(store.delete_question(q1.question_uuid.clone()), Ok(()));
    assert_eq!(store.get_answers(q1.question_uuid.clone()).unwrap().len(), 0);
    let remaining = store.get_answers(q2.question_uuid.clone()).unwrap();
    assert_eq!(remaining.len(), 1);
    assert_eq!(remaining[0].answer_uuid, kept.answer_uuid);
}

#[test]
fn two_answers_for_one_question_are_listed_exactly() {
    let mut store = InMemoryStore::new();
    let q = store.create_question(question("Q", "D")).unwrap();
    let a1 = store.create_answer(answer(&q.question_uuid, "first")).unwrap();
    let a2 = store.create_answer(answer(&q.question_uuid, "second")).unwrap();

    assert_eq!(a1.question_uuid, q.question_uuid);
    assert_eq!(a2.question_uuid, q.question_uuid);
    assert!(!a1.answer_uuid.is_empty());
    assert_ne!(a1.answer_uuid, a2.answer_uuid);

    let listed = store.get_answers(q.question_uuid.clone()).unwrap();
    assert_eq!(listed.len(), 2);
    assert_eq!(listed[0].answer_uuid, a1.answer_uuid);
    assert_eq!(listed[0].content, "first");
    assert_eq!(listed[1].answer_uuid, a2.answer_uuid);
    assert_eq!(listed[1].content, "second");
}

#[test]
fn deleting_an_answer_removes_only_that_row() {
    let mut store = InMemoryStore::new();
    let q = store.create_question(question("Q", "D")).unwrap();
    let a1 = store.create_answer(answer(&q.question_uuid, "first")).unwrap();
    let a2 = store.create_answer(answer(&q.question_uuid, "second")).unwrap();

    assert_eq!(store.delete_answer(a1.answer_uuid.clone()), Ok(()));
    let listed = store.get_answers(q.question_uuid.clone()).unwrap();
    assert_eq!(listed.len(), 1);
    assert_eq!(listed[0].answer_uuid, a2.answer_uuid);

    // Deleting the same answer again still succeeds and changes nothing.
    assert_eq!(store.delete_answer(a1.answer_uuid.clone()), Ok(()));
    assert_eq!(store.get_answers(q.question_uuid.clone()).unwrap().len(), 1);
}

#[test]
fn listing_an_empty_store_is_success() {
    let store = InMemoryStore::new();
    assert_eq!(store.get_questions().unwrap().len(), 0);
    let valid = "67e55044-10b1-426f-9247-bb680e5fe0c8";
    assert_eq!(store.get_answers(valid.to_string()).unwrap().len(), 0);
}

#[test]
fn deleting_an_absent_valid_identifier_succeeds() {
    let mut store = InMemoryStore::new();
    let valid = "67e55044-10b1-426f-9247-bb680e5fe0c8";
    assert_eq!(store.delete_question(valid.to_string()), Ok(()));
    assert_eq!(store.delete_answer(valid.to_string()), Ok(()));
}

#[test]
fn handlers_run_the_full_round_trip() {
    let mut store = InMemoryStore::new();
    let q = create_question(question("Q1", "D1"), &mut store).unwrap();
    assert!(!q.question_uuid.is_empty());

    let listed = read_questions(&store).unwrap();
    assert_eq!(listed.len(), 1);
    assert_eq!(listed[0].title, "Q1");

    let a = create_answer(answer(&q.question_uuid, "A1"), &mut store).unwrap();
    assert_eq!(a.question_uuid, q.question_uuid);
    assert!(!a.answer_uuid.is_empty());

    let answers = read_answers(q.question_uuid.clone(), &store).unwrap();
    assert_eq!(answers.len(), 1);
    assert_eq!(answers[0].content, "A1");

    assert_eq!(delete_answer(a.answer_uuid.clone(), &mut store), Ok(()));
    assert_eq!(read_answers(q.question_uuid.clone(), &store).unwrap().len(), 0);

    assert_eq!(delete_question(q.question_uuid.clone(), &mut store), Ok(()));
    assert_eq!(read_questions(&store).unwrap().len(), 0);
}

#[test]
fn create_answer_for_missing_question_is_a_client_error() {
    let mut store = InMemoryStore::new();
    let absent = "00000000-0000-0000-0000-00000000abcd";
    let r = create_answer(answer(absent, "x"), &mut store);
    assert_eq!(r, Err(APIError::BadRequest(absent.to_string())));
}

#[test]
fn foreign_key_violation_translates_to_invalid_identifier() {
    let uuid = "67e55044-10b1-426f-9247-bb680e5fe0c8";
    let r = translate_insert_error(
        Some(foreign_key_violation().to_string()),
        "insert failed".to_string(),
        uuid.to_string(),
    );
    assert_eq!(r, DBError::InvalidUUID(uuid.to_string()));
}

#[test]
fn other_store_failures_translate_to_storage_failures() {
    let uuid = "67e55044-10b1-426f-9247-bb680e5fe0c8";
    let r = translate_insert_error(
        Some("23505".to_string()),
        "duplicate key".to_string(),
        uuid.to_string(),
    );
    assert_eq!(r, DBError::Other("duplicate key".to_string()));

    let r = translate_insert_error(None, "connection reset".to_string(), uuid.to_string());
    assert_eq!(r, DBError::Other("connection reset".to_string()));
}

#[test]
fn handler_errors_map_onto_api_errors() {
    let bad = handler_error_of(DBError::InvalidUUID("u".to_string()));
    assert_eq!(bad, HandlerError::BadRequest("u".to_string()));
    assert_eq!(APIError::from(bad), APIError::BadRequest("u".to_string()));

    let other = handler_error_of(DBError::Other("boom".to_string()));
    assert_eq!(other, HandlerError::InternalError("boom".to_string()));
    assert_eq!(APIError::from(other), APIError::InternalError("boom".to_string()));
}

#[test]
fn identifier_validation_matches_the_uuid_grammar() {
    assert!(validate_uuid("67e55044-10b1-426f-9247-bb680e5fe0c8"));
    assert!(validate_uuid("67E55044-10B1-426F-9247-BB680E5FE0C8"));
    assert!(!validate_uuid(""));
    assert!(!validate_uuid("not-a-uuid"));
    assert!(!validate_uuid("67e55044-10b1-426f-9247-bb680e5fe0c"));
    assert!(!validate_uuid("67e55044x10b1-426f-9247-bb680e5fe0c8"));
}
