use task_service::actions::{new_task_record, task_with_uid};
use task_service::api::{
    created_reply, delete_message, list_reply, lookup_reply, TaskReply, STATUS_CREATED,
    STATUS_INTERNAL_ERROR, STATUS_NOT_FOUND, STATUS_OK,
};
use task_service::model::{NewTask, Task};
use task_service::uid::TaskUid;

const SAMPLE: [u8; 16] = [
    0xa1, 0xa2, 0xa3, 0xa4, 0xb1, 0xb2, 0xc1, 0xc2, 0xd1, 0xd2, 0xd3, 0xd4, 0xd5, 0xd6, 0xd7, 0xd8,
];

fn sample_task() -> Task {
    task_with_uid(&TaskUid::from_bytes(SAMPLE), "Test task", &false)
}

#[test]
fn new_task_keeps_name_and_flag() {
    let t = NewTask::new("Test task", false);
    assert_eq!(t.name, "Test task");
    assert!(!t.done);
    let t = NewTask::new("", true);
    assert_eq!(t.name, "");
    assert!(t.done);
}

#[test]
fn uid_text_is_lowercase_hyphenated_hex() {
    let uid = TaskUid::from_bytes(SAMPLE);
    assert_eq!(uid.to_text(), "a1a2a3a4-b1b2-c1c2-d1d2-d3d4d5d6d7d8");
}

#[test]
fn nil_uid_text() {
    let uid = TaskUid::from_bytes([0u8; 16]);
    assert_eq!(uid.to_text(), "00000000-0000-0000-0000-000000000000");
}

#[test]
fn max_uid_text() {
    let uid = TaskUid::from_bytes([0xffu8; 16]);
    assert_eq!(uid.to_text(), "ffffffff-ffff-ffff-ffff-ffffffffffff");
}

#[test]
fn random_uid_has_version_and_variant_bits() {
    let uid = TaskUid::new_random();
    assert_eq!(uid.bytes[6] >> 4, 4);
    assert_eq!(uid.bytes[8] >> 6, 2);
    let other = TaskUid::new_random();
    assert_ne!(uid.bytes, other.bytes);
}

#[test]
fn task_with_uid_is_exact() {
    let t = sample_task();
    assert_eq!(t.id, "a1a2a3a4-b1b2-c1c2-d1d2-d3d4d5d6d7d8");
    assert_eq!(t.name, "Test task");
    assert!(!t.done);
}

#[test]
fn new_task_record_has_random_id() {
    let t = new_task_record("Test task", &false);
    assert_eq!(t.name, "Test task");
    assert!(!t.done);
    let id: Vec<char> = t.id.chars().collect();
    assert_eq!(id.len(), 36);
    for i in [8usize, 13, 18, 23] {
        assert_eq!(id[i], '-');
    }
    assert_eq!(id[14], '4');
    assert!(matches!(id[19], '8' | '9' | 'a' | 'b'));
    assert!(id.iter().all(|c| *c == '-' || c.is_ascii_digit() || ('a'..='f').contains(c)));
    let u = new_task_record("Test task", &true);
    assert!(u.done);
    assert_ne!(t.id, u.id);
}

#[test]
fn lookup_found() {
    let r = lookup_reply(&TaskUid::from_bytes(SAMPLE), Ok(Some(sample_task())));
    assert_eq!(r.status_code(), STATUS_OK);
    match r {
        TaskReply::Found(t) => assert_eq!(t.name, "Test task"),
        other => panic!("unexpected reply: {other:?}"),
    }
}

#[test]
fn lookup_missing_names_the_uid() {
    let r = lookup_reply(&TaskUid::from_bytes([0u8; 16]), Ok(None));
    assert_eq!(r.status_code(), STATUS_NOT_FOUND);
    match r {
        TaskReply::NotFound(text) => {
            assert!(text.starts_with("No task found"));
            assert_eq!(text, "No task found with UID: 00000000-0000-0000-0000-000000000000");
        }
        other => panic!("unexpected reply: {other:?}"),
    }
}

#[test]
fn lookup_error_is_internal() {
    let r = lookup_reply(&TaskUid::from_bytes(SAMPLE), Err("database is locked".to_string()));
    assert_eq!(r.status_code(), STATUS_INTERNAL_ERROR);
    assert!(matches!(r, TaskReply::Failed(ref e) if e == "database is locked"));
}

#[test]
fn list_replies() {
    let r = list_reply(Ok(vec![sample_task(), sample_task()]));
    assert_eq!(r.status_code(), 200);
    assert!(matches!(r, TaskReply::Listed(ref ts) if ts.len() == 2));
    let r = list_reply(Ok(vec![]));
    assert!(matches!(r, TaskReply::Listed(ref ts) if ts.is_empty()));
    let r = list_reply(Err("no such table: tasks".to_string()));
    assert_eq!(r.status_code(), 500);
    assert!(matches!(r, TaskReply::Failed(ref e) if e == "no such table: tasks"));
}

#[test]
fn created_replies() {
    let r = created_reply(Ok(sample_task()));
    assert_eq!(r.status_code(), STATUS_CREATED);
    assert_eq!(r.status_code(), 201);
    assert!(matches!(r, TaskReply::Created(ref t) if t.name == "Test task"));
    let r = created_reply(Err("disk full".to_string()));
    assert_eq!(r.status_code(), 500);
    assert!(matches!(r, TaskReply::Failed(ref e) if e == "disk full"));
}

#[test]
fn delete_messages() {
    assert_eq!(delete_message(Ok(1)), "deleted");
    assert_eq!(delete_message(Ok(0)), "deleted");
    assert_eq!(delete_message(Err("timed out".to_string())), "timed out");
}

#[test]
fn status_constants() {
    assert_eq!(STATUS_OK, 200);
    assert_eq!(STATUS_CREATED, 201);
    assert_eq!(STATUS_NOT_FOUND, 404);
    assert_eq!(STATUS_INTERNAL_ERROR, 500);
}
