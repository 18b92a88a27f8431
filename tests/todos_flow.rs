use std::sync::Arc;

use todo_api::clock::Timestamp;
use todo_api::flow::{Flow, Next};
use todo_api::model::{CreateTodo, RecordId, Todo, UpdateTodo, UpdateTodoRequest};
use todo_api::reply::{Message, Payload, Reply};
use todo_api::repository::{DataContext, TodoRepository};
use todo_api::store::{Answer, Field, StoreCall, Table};
use todo_api::todos::{
    create_todo, delete_todo, get_all_todos, get_todo_by_id, get_todo_by_title, step_todo,
    step_todo_at, update_todo,
};

fn repo() -> TodoRepository<()> {
    DataContext::new(Arc::new(())).todos()
}

fn at(micros: i64) -> Timestamp {
    Timestamp { micros }
}

fn call(next: Next<Todo, UpdateTodo>) -> (Flow<Todo, UpdateTodo>, StoreCall<Todo>) {
    match next {
        Next::Call { flow, call } => (flow, call),
        Next::Respond(reply) => panic!("expected a store call, got {:?}", reply),
    }
}

fn reply(next: Next<Todo, UpdateTodo>) -> Reply<Todo> {
    match next {
        Next::Respond(reply) => reply,
        Next::Call { call, .. } => panic!("expected a reply, got {:?}", call),
    }
}

fn stored(key: &str, title: &str, created: i64) -> Todo {
    Todo {
        id: Some(RecordId { table: "todo".to_string(), key: key.to_string() }),
        title: title.to_string(),
        content: Some("two litres".to_string()),
        completed: Some(false),
        created_at: Some(at(created)),
        updated_at: Some(at(created)),
    }
}

fn message_text(reply: &Reply<Todo>) -> String {
    reply.message.as_ref().expect("a message").text()
}

#[test]
fn post_todo_then_same_title_again() {
    let repo = repo();
    let body = CreateTodo { title: "buy milk".to_string(), content: None, completed: None };

    let (flow, lookup) = call(create_todo(&repo, body.clone()));
    match lookup {
        StoreCall::SelectWhere { table, field, value } => {
            assert_eq!(table, Table::Todo);
            assert_eq!(field, Field::Title);
            assert_eq!(value, "buy milk");
        }
        other => panic!("unexpected call {:?}", other),
    }
    let now = at(1_000);
    let (flow, write) = call(step_todo_at(&repo, flow, Answer::Rows(vec![]), now));
    let written = match write {
        StoreCall::Create { table, content } => {
            assert_eq!(table, Table::Todo);
            content
        }
        other => panic!("unexpected call {:?}", other),
    };
    assert_eq!(written.title, "buy milk");
    assert_eq!(written.completed, Some(false));
    assert_eq!(written.created_at, Some(now));
    assert_eq!(written.updated_at, Some(now));

    let record = Todo {
        id: Some(RecordId { table: "todo".to_string(), key: "m1".to_string() }),
        ..written
    };
    let created = reply(step_todo_at(&repo, flow, Answer::Row(Some(record.clone())), now));
    assert_eq!(created.code, 201);
    assert_eq!(created.status(), "success");
    match &created.payload {
        Payload::One(t) => {
            assert_eq!(t.completed, Some(false));
            assert!(t.created_at.is_some());
        }
        other => panic!("unexpected payload {:?}", other),
    }

    let (flow, _) = call(create_todo(&repo, body));
    let refused = reply(step_todo_at(&repo, flow, Answer::Rows(vec![record.clone()]), at(2_000)));
    assert_eq!(refused.code, 400);
    assert_eq!(refused.status(), "error");
    assert_eq!(message_text(&refused), "Todo already exists");
    match refused.payload {
        Payload::One(t) => assert_eq!(t, record),
        other => panic!("unexpected payload {:?}", other),
    }
}

#[test]
fn put_completed_only() {
    let repo = repo();
    let before = stored("m1", "buy milk", 1_000);
    let body = UpdateTodoRequest { title: None, content: None, completed: Some(true) };
    let (flow, read) = call(update_todo(&repo, "m1".to_string(), body));
    match read {
        StoreCall::SelectById { table, id } => {
            assert_eq!(table, Table::Todo);
            assert_eq!(id, "m1");
        }
        other => panic!("unexpected call {:?}", other),
    }
    let (flow, write) = call(step_todo_at(&repo, flow, Answer::Row(Some(before.clone())), at(5_000)));
    let merged = match write {
        StoreCall::Update { table, id, content } => {
            assert_eq!(table, Table::Todo);
            assert_eq!(id, "m1");
            content
        }
        other => panic!("unexpected call {:?}", other),
    };
    assert_eq!(merged.title, before.title);
    assert_eq!(merged.content, before.content);
    assert_eq!(merged.completed, Some(true));
    assert_eq!(merged.created_at, before.created_at);
    assert!(merged.updated_at.unwrap().micros > before.updated_at.unwrap().micros);

    let done = reply(step_todo_at(&repo, flow, Answer::Row(Some(merged.clone())), at(5_000)));
    assert_eq!(done.code, 200);
    assert_eq!(done.status(), "success");
    match done.payload {
        Payload::One(t) => assert_eq!(t, merged),
        other => panic!("unexpected payload {:?}", other),
    }
}

#[test]
fn two_disjoint_updates_both_apply() {
    let repo = repo();
    let original = stored("m1", "buy milk", 1_000);
    let first = UpdateTodoRequest { title: Some("buy oat milk".to_string()), content: None, completed: None };
    let second = UpdateTodoRequest { title: None, content: None, completed: Some(true) };

    let (flow, _) = call(update_todo(&repo, "m1".to_string(), first));
    let (_, write) = call(step_todo_at(&repo, flow, Answer::Row(Some(original.clone())), at(2_000)));
    let once = match write {
        StoreCall::Update { content, .. } => content,
        other => panic!("unexpected call {:?}", other),
    };
    let (flow, _) = call(update_todo(&repo, "m1".to_string(), second));
    let (_, write) = call(step_todo_at(&repo, flow, Answer::Row(Some(once.clone())), at(3_000)));
    let twice = match write {
        StoreCall::Update { content, .. } => content,
        other => panic!("unexpected call {:?}", other),
    };
    assert_eq!(twice.title, "buy oat milk");
    assert_eq!(twice.completed, Some(true));
    assert_eq!(twice.content, original.content);
    assert_eq!(once.updated_at, Some(at(2_000)));
    assert_eq!(twice.updated_at, Some(at(3_000)));
}

#[test]
fn update_of_missing_todo_is_not_found() {
    let repo = repo();
    let body = UpdateTodoRequest { title: Some("x".to_string()), content: None, completed: None };
    let (flow, _) = call(update_todo(&repo, "gone".to_string(), body));
    let r = reply(step_todo_at(&repo, flow, Answer::Row(None), at(1)));
    assert_eq!(r.code, 404);
    assert_eq!(message_text(&r), "Todo with ID: gone not found");
}

#[test]
fn update_write_failure_is_server_error() {
    let repo = repo();
    let body = UpdateTodoRequest { title: None, content: Some("c".to_string()), completed: None };
    let (flow, _) = call(update_todo(&repo, "m1".to_string(), body));
    let (flow, _) = call(step_todo_at(&repo, flow, Answer::Row(Some(stored("m1", "t", 1))), at(2)));
    let r = reply(step_todo_at(&repo, flow, Answer::Failed, at(2)));
    assert_eq!(r.code, 500);
    assert_eq!(message_text(&r), "Failed to update todo");
}

#[test]
fn delete_returns_created_then_get_is_not_found() {
    let repo = repo();
    let record = stored("d1", "walk dog", 10);
    let (flow, check) = call(delete_todo(&repo, "d1".to_string()));
    assert!(matches!(check, StoreCall::SelectById { table: Table::Todo, ref id } if id == "d1"));
    let (flow, del) = call(step_todo_at(&repo, flow, Answer::Row(Some(record.clone())), at(20)));
    assert!(matches!(del, StoreCall::Delete { table: Table::Todo, ref id } if id == "d1"));
    let r = reply(step_todo_at(&repo, flow, Answer::Row(Some(record.clone())), at(20)));
    assert_eq!(r.code, 204);
    assert_eq!(message_text(&r), "Todo deleted successfully");
    match r.payload {
        Payload::One(t) => assert_eq!(t, record),
        other => panic!("unexpected payload {:?}", other),
    }

    let (flow, _) = call(get_todo_by_id(&repo, "d1".to_string()));
    let r = reply(step_todo_at(&repo, flow, Answer::Row(None), at(30)));
    assert_eq!(r.code, 404);
    assert_eq!(r.status(), "error");
    assert_eq!(message_text(&r), "Todo with ID: d1 not found");
}

#[test]
fn delete_twice_is_not_found() {
    let repo = repo();
    let (flow, _) = call(delete_todo(&repo, "d1".to_string()));
    let r = reply(step_todo_at(&repo, flow, Answer::Row(None), at(1)));
    assert_eq!(r.code, 404);
    assert_eq!(message_text(&r), "Todo with ID: d1 not found");
}

#[test]
fn delete_vanished_between_calls_is_not_found() {
    let repo = repo();
    let (flow, _) = call(delete_todo(&repo, "d1".to_string()));
    let (flow, _) = call(step_todo_at(&repo, flow, Answer::Row(Some(stored("d1", "t", 1))), at(1)));
    let r = reply(step_todo_at(&repo, flow, Answer::Row(None), at(1)));
    assert_eq!(r.code, 404);
}

#[test]
fn delete_store_failure_is_server_error() {
    let repo = repo();
    let (flow, _) = call(delete_todo(&repo, "d1".to_string()));
    let (flow, _) = call(step_todo_at(&repo, flow, Answer::Row(Some(stored("d1", "t", 1))), at(1)));
    let r = reply(step_todo_at(&repo, flow, Answer::Failed, at(1)));
    assert_eq!(r.code, 500);
    assert_eq!(message_text(&r), "Failed to delete todo");
}

#[test]
fn list_of_empty_table() {
    let repo = repo();
    let (flow, all) = call(get_all_todos(&repo));
    assert!(matches!(all, StoreCall::SelectAll { table: Table::Todo }));
    let r = reply(step_todo_at(&repo, flow, Answer::Rows(vec![]), at(1)));
    assert_eq!(r.code, 200);
    assert_eq!(r.status(), "success");
    assert_eq!(r.count(), 0);
    assert!(matches!(r.payload, Payload::Many(ref v) if v.is_empty()));
}

#[test]
fn list_after_store_failure_is_empty() {
    let repo = repo();
    let (flow, _) = call(get_all_todos(&repo));
    let r = reply(step_todo_at(&repo, flow, Answer::Failed, at(1)));
    assert_eq!(r.code, 200);
    assert_eq!(r.count(), 0);
}

#[test]
fn list_of_two() {
    let repo = repo();
    let (flow, _) = call(get_all_todos(&repo));
    let rows = vec![stored("a", "one", 1), stored("b", "two", 2)];
    let r = reply(step_todo_at(&repo, flow, Answer::Rows(rows.clone()), at(3)));
    assert_eq!(r.count(), 2);
    match r.payload {
        Payload::Many(v) => assert_eq!(v, rows),
        other => panic!("unexpected payload {:?}", other),
    }
}

#[test]
fn get_by_title_takes_first_row() {
    let repo = repo();
    let (flow, q) = call(get_todo_by_title(&repo, "dup".to_string()));
    assert!(matches!(q, StoreCall::SelectWhere { table: Table::Todo, field: Field::Title, ref value } if value == "dup"));
    let a = stored("a", "dup", 1);
    let b = stored("b", "dup", 2);
    let r = reply(step_todo_at(&repo, flow, Answer::Rows(vec![a.clone(), b]), at(3)));
    assert_eq!(r.code, 200);
    match r.payload {
        Payload::One(t) => assert_eq!(t, a),
        other => panic!("unexpected payload {:?}", other),
    }
}

#[test]
fn get_by_title_missing() {
    let repo = repo();
    let (flow, _) = call(get_todo_by_title(&repo, "nope".to_string()));
    let r = reply(step_todo_at(&repo, flow, Answer::Rows(vec![]), at(1)));
    assert_eq!(r.code, 404);
    assert_eq!(message_text(&r), "Todo with title: nope not found");
}

#[test]
fn get_by_id_store_failure() {
    let repo = repo();
    let (flow, _) = call(get_todo_by_id(&repo, "x".to_string()));
    let r = reply(step_todo_at(&repo, flow, Answer::Failed, at(1)));
    assert_eq!(r.code, 500);
    assert_eq!(message_text(&r), "Failed to fetch todo");
}

#[test]
fn create_lookup_failure_is_server_error() {
    let repo = repo();
    let body = CreateTodo { title: "t".to_string(), content: None, completed: Some(true) };
    let (flow, _) = call(create_todo(&repo, body));
    let r = reply(step_todo_at(&repo, flow, Answer::Failed, at(1)));
    assert_eq!(r.code, 500);
    assert_eq!(message_text(&r), "Failed to create todo");
}

#[test]
fn create_write_without_row_is_server_error() {
    let repo = repo();
    let body = CreateTodo { title: "t".to_string(), content: None, completed: Some(true) };
    let (flow, _) = call(create_todo(&repo, body));
    let (flow, _) = call(step_todo_at(&repo, flow, Answer::Rows(vec![]), at(1)));
    let r = reply(step_todo_at(&repo, flow, Answer::Row(None), at(1)));
    assert_eq!(r.code, 500);
    assert_eq!(message_text(&r), "Failed to create todo");
}

#[test]
fn step_with_clock_stamps_a_recent_time() {
    let repo = repo();
    let body = CreateTodo { title: "t".to_string(), content: Some("c".to_string()), completed: None };
    let (flow, _) = call(create_todo(&repo, body));
    let (_, write) = call(step_todo(&repo, flow, Answer::Rows(vec![])));
    match write {
        StoreCall::Create { content, .. } => {
            let created = content.created_at.expect("stamped");
            // later than 2020-01-01
            assert!(created.micros > 1_577_836_800_000_000);
            assert_eq!(content.updated_at, Some(created));
            assert_eq!(content.completed, Some(false));
            assert_eq!(content.content, Some("c".to_string()));
        }
        other => panic!("unexpected call {:?}", other),
    }
}

#[test]
fn merge_keeps_unset_fields() {
    let t = stored("k", "title", 7);
    let patch = UpdateTodo { title: None, content: Some("new".to_string()), completed: None };
    let m = t.clone().merged(patch, at(9));
    assert_eq!(m.title, "title");
    assert_eq!(m.content, Some("new".to_string()));
    assert_eq!(m.completed, Some(false));
    assert_eq!(m.id, t.id);
    assert_eq!(m.created_at, Some(at(7)));
    assert_eq!(m.updated_at, Some(at(9)));
}

#[test]
fn message_texts() {
    let m = Message::NotFound { table: Table::Role, field: Field::Name, value: "X".to_string() };
    assert_eq!(m.text(), "Role with name: X not found");
    let m = Message::NotFound { table: Table::User, field: Field::Phone, value: "555".to_string() };
    assert_eq!(m.text(), "User with phone: 555 not found");
    assert_eq!(Message::AlreadyExists { table: Table::User }.text(), "User already exists");
    assert_eq!(Message::Deleted { table: Table::Role }.text(), "Role deleted successfully");
    assert_eq!(Table::Todo.name(), "todo");
    assert_eq!(Field::Email.column(), "email");
}
