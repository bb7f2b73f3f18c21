use tasks_api::model::{CreateTaskInput, Task, Timestamp};
use tasks_api::service::{
    create_task, delete_task, finish_request, list_tasks, update_task, Outcome, TaskError,
    MAX_TASKS,
};
use tasks_api::table::{StoreCall, StoreReply, TaskTable};
use tasks_api::task_id::{parse_task_id, IdError};

fn input(title: &str, completed: Option<bool>, due_date: Option<Timestamp>) -> CreateTaskInput {
    CreateTaskInput { title: title.to_string(), completed, due_date }
}

fn run(table: &mut TaskTable, request: Result<StoreCall, TaskError>) -> Result<Outcome, TaskError> {
    let call = request?;
    let reply = table.execute(&call);
    finish_request(&call, reply)
}

fn list(table: &mut TaskTable) -> Vec<Task> {
    match run(table, Ok(list_tasks())) {
        Ok(Outcome::Listed(v)) => v,
        other => panic!("list failed: {:?}", other),
    }
}

fn create(table: &mut TaskTable, body: CreateTaskInput) -> Task {
    match run(table, create_task(body)) {
        Ok(Outcome::Created(t)) => t,
        other => panic!("create failed: {:?}", other),
    }
}

fn id_text(id: u128) -> String {
    format!("{:032x}", id)
}

fn hyphenated(id: u128) -> String {
    let s = format!("{:032x}", id);
    format!("{}-{}-{}-{}-{}", &s[0..8], &s[8..12], &s[12..16], &s[16..20], &s[20..32])
}

#[test]
fn create_then_list_holds_exactly_one_new_task() {
    let mut table = TaskTable::new();
    let first = create(&mut table, input("first", None, None));
    let due = Timestamp::from_parts(1_700_000_000, 5).unwrap();
    let t = create(&mut table, input("second", Some(true), Some(due)));
    assert_ne!(t.id, first.id);
    let rows = list(&mut table);
    assert_eq!(rows.len(), 2);
    let matching: Vec<&Task> = rows.iter().filter(|r| r.id == t.id).collect();
    assert_eq!(matching.len(), 1);
    assert_eq!(matching[0].title, "second");
    assert!(matching[0].completed);
    assert_eq!(matching[0].due_date, Some(due));
}

#[test]
fn round_trip_title_completed_due_date() {
    let mut table = TaskTable::new();
    let due = Timestamp::from_parts(1_735_689_600, 250_000_000).unwrap();
    let t = create(&mut table, input("A", Some(true), Some(due)));
    let rows = list(&mut table);
    let found = rows.iter().find(|r| r.id == t.id).unwrap();
    assert_eq!(found.title, "A");
    assert!(found.completed);
    assert_eq!(found.due_date, Some(due));
}

#[test]
fn hundred_creates_then_quota_exceeded() {
    let mut table = TaskTable::new();
    for i in 0..100 {
        let r = run(&mut table, create_task(input(&format!("task {}", i), None, None)));
        let r = r.unwrap();
        assert_eq!(r.status_code(), 201);
    }
    let r = run(&mut table, create_task(input("one too many", None, None)));
    assert_eq!(r, Err(TaskError::QuotaExceeded));
    assert_eq!(r.unwrap_err().status_code(), 400);
    assert_eq!(list(&mut table).len(), 100);
    assert_eq!(table.len(), MAX_TASKS as usize);
}

#[test]
fn create_at_ceiling_adds_no_row() {
    let mut table = TaskTable::new();
    for i in 0..MAX_TASKS {
        create(&mut table, input(&format!("t{}", i), Some(i % 2 == 0), None));
    }
    let before = list(&mut table);
    let r = run(&mut table, create_task(input("extra", Some(true), None)));
    assert_eq!(r, Err(TaskError::QuotaExceeded));
    assert_eq!(list(&mut table), before);
}

#[test]
fn create_defaults_completed_false_and_no_due_date() {
    let mut table = TaskTable::new();
    let t = create(&mut table, input("buy milk", None, None));
    assert_eq!(t.title, "buy milk");
    assert!(!t.completed);
    assert_eq!(t.due_date, None);
    let rows = list(&mut table);
    assert_eq!(rows, vec![t]);
}

#[test]
fn create_with_empty_title_is_refused() {
    assert_eq!(create_task(input("", Some(true), None)), Err(TaskError::InvalidInput));
    assert_eq!(TaskError::InvalidInput.status_code(), 400);
}

#[test]
fn update_replaces_every_field() {
    let mut table = TaskTable::new();
    let due = Timestamp::from_parts(86_400, 0).unwrap();
    let other = create(&mut table, input("other", None, None));
    let t = create(&mut table, input("old", Some(true), Some(due)));
    let r = run(&mut table, update_task(&hyphenated(t.id), input("new", None, None)));
    let updated = match r {
        Ok(Outcome::Updated(u)) => u,
        other => panic!("update failed: {:?}", other),
    };
    assert_eq!(updated, Task { id: t.id, title: "new".to_string(), completed: false, due_date: None });
    let rows = list(&mut table);
    assert_eq!(rows, vec![other, updated]);
}

#[test]
fn update_with_empty_title_is_refused() {
    let id = hyphenated(3);
    assert_eq!(update_task(&id, input("", None, None)), Err(TaskError::InvalidInput));
}

#[test]
fn malformed_ids_are_refused_before_the_store() {
    for bad in ["", "not-a-uuid", "1234", "550e8400-e29b-41d4-a716-44665544000g", "550e8400e29b41d4a716446655440000ff"] {
        assert_eq!(update_task(bad, input("x", None, None)), Err(TaskError::InvalidInput));
        assert_eq!(delete_task(bad), Err(TaskError::InvalidInput));
    }
}

#[test]
fn unknown_id_is_not_found_and_changes_nothing() {
    let mut table = TaskTable::new();
    create(&mut table, input("keep", None, None));
    let before = list(&mut table);
    let missing = "550e8400-e29b-41d4-a716-446655440000";
    let r = run(&mut table, update_task(missing, input("x", Some(true), None)));
    assert_eq!(r, Err(TaskError::NotFound));
    assert_eq!(r.unwrap_err().status_code(), 400);
    let r = run(&mut table, delete_task(missing));
    assert_eq!(r, Err(TaskError::NotFound));
    assert_eq!(list(&mut table), before);
}

#[test]
fn delete_then_list_and_delete_again() {
    let mut table = TaskTable::new();
    let a = create(&mut table, input("a", None, None));
    let b = create(&mut table, input("b", None, None));
    let r = run(&mut table, delete_task(&id_text(a.id)));
    assert_eq!(r, Ok(Outcome::Deleted));
    assert_eq!(r.unwrap().status_code(), 200);
    let rows = list(&mut table);
    assert!(rows.iter().all(|t| t.id != a.id));
    assert_eq!(rows, vec![b]);
    let again = run(&mut table, delete_task(&id_text(a.id)));
    assert_eq!(again, Err(TaskError::NotFound));
    assert_eq!(list(&mut table).len(), 1);
}

#[test]
fn id_forms_and_values() {
    let v: u128 = 0x550e8400_e29b_41d4_a716_446655440000;
    assert_eq!(parse_task_id("550e8400-e29b-41d4-a716-446655440000"), Ok(v));
    assert_eq!(parse_task_id("550E8400-E29B-41D4-A716-446655440000"), Ok(v));
    assert_eq!(parse_task_id("550e8400e29b41d4a716446655440000"), Ok(v));
    assert_eq!(parse_task_id("{550e8400-e29b-41d4-a716-446655440000}"), Ok(v));
    assert_eq!(parse_task_id("URN:uuid:550e8400-e29b-41d4-a716-446655440000"), Ok(v));
    assert_eq!(parse_task_id("00000000-0000-0000-0000-00000000000a"), Ok(10));
    assert_eq!(parse_task_id("550e8400_e29b_41d4_a716_446655440000"), Err(IdError::Malformed));
    assert_eq!(parse_task_id("urn:uuid:550e8400e29b41d4a716446655440000"), Err(IdError::Malformed));
    assert_eq!(parse_task_id("é50e8400-e29b-41d4-a716-446655440000"), Err(IdError::Malformed));
}

#[test]
fn store_failures_are_server_errors() {
    let call = list_tasks();
    let r = finish_request(&call, StoreReply::Failed);
    assert_eq!(r, Err(TaskError::StoreFailure));
    assert_eq!(TaskError::StoreFailure.status_code(), 500);
    assert_eq!(TaskError::StoreFailure.code(), "store_unavailable");
    let r = finish_request(&call, StoreReply::Deleted(1));
    assert_eq!(r, Err(TaskError::StoreFailure));
}

#[test]
fn error_codes_are_distinct() {
    assert_eq!(TaskError::InvalidInput.code(), "invalid_input");
    assert_eq!(TaskError::NotFound.code(), "not_found");
    assert_eq!(TaskError::QuotaExceeded.code(), "quota_exceeded");
    assert_eq!(TaskError::NotFound.status_code(), 400);
    assert_eq!(TaskError::QuotaExceeded.status_code(), 400);
}

#[test]
fn timestamp_parts() {
    assert_eq!(Timestamp::from_parts(-1, 999_999_999), Some(Timestamp { secs: -1, nanos: 999_999_999 }));
    assert_eq!(Timestamp::from_parts(0, 1_000_000_000), None);
}
