use grsql::failure::Failure;
use grsql::ingest::{Step, StreamEvent};
use grsql::record::WireRecord;
use grsql::service::SqliteCruder;

fn part(bytes: &[u8]) -> StreamEvent {
    StreamEvent::Chunk(WireRecord {
        id: None,
        name: "info".to_string(),
        mime: "text/file".to_string(),
        created: None,
        updated: None,
        content: bytes.to_vec(),
    })
}

#[test]
fn service_starts_from_the_store_maximum() {
    let empty = SqliteCruder::new(None, 16);
    assert_eq!(empty.base_id(), 0);
    assert_eq!(empty.buf_len_limit(), 16);
    let used = SqliteCruder::new(Some(12), 16);
    assert_eq!(used.base_id(), 12);
}

#[test]
fn service_creates_step_by_step() {
    let mut service = SqliteCruder::new(None, 16);
    let mut state = service.begin_create();
    assert_eq!(state.budget(), 16);
    assert_eq!(state.step(part(b"hell")), Step::Continue);
    assert_eq!(state.step(part(b"o wo")), Step::Continue);
    assert_eq!(state.step(part(b"rld")), Step::Continue);
    let record = service.finish_create_at(state, 77).unwrap();
    assert_eq!(record.id, 1);
    assert_eq!(record.created, 77);
    assert_eq!(record.content, b"hello world".to_vec());
    assert_eq!(service.base_id(), 0);
    let answer = service.conclude_create(Ok(())).unwrap();
    assert!(answer.ok);
    assert_eq!(answer.id, 1);
    assert_eq!(service.base_id(), 1);
    assert_eq!(service.buf_len_limit(), 16);
}

#[test]
fn service_restart_resumes_after_the_last_id() {
    let mut service = SqliteCruder::new(Some(5), 8);
    let first = service.create_at(vec![part(b"a")], 1).unwrap();
    assert_eq!(first.id, 6);
    assert_eq!(service.conclude_create(Ok(())).unwrap().id, 6);
    let restarted = SqliteCruder::new(Some(service.base_id()), 8);
    assert_eq!(restarted.create_at(vec![part(b"b")], 1).unwrap().id, 7);
}

#[test]
fn service_rejects_what_the_budget_forbids() {
    let mut service = SqliteCruder::new(None, 4);
    assert_eq!(service.create_at(vec![part(b"abc"), part(b"de")], 1), Err(Failure::StreamTooLong));
    assert_eq!(service.create(Vec::new()), Err(Failure::IncompleteMessage));
    assert_eq!(service.base_id(), 0);
    let r = service.conclude_create(Err("constraint failed".to_string()));
    assert_eq!(r, Err(Failure::Store("constraint failed".to_string())));
    assert_eq!(service.base_id(), 0);
    let ok = service.create(vec![part(b"abcd")]).unwrap();
    assert_eq!(ok.id, 1);
    assert!(ok.created > 0);
}
