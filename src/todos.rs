//! The requests on todos: list, fetch by id or title, create with a unique
//! title, update, delete.
use vstd::prelude::*;

use crate::clock::{current_time, Timestamp};
use crate::flow::{
    advance, checking_step, common_step, conflict, fail, not_found, reading_step, Flow, Next,
    NextView,
};
use crate::model::{CreateTodo, Todo, UpdateTodo, UpdateTodoRequest};
use crate::reply::Operation;
use crate::repository::TodoRepository;
use crate::store::{Answer, Field, StoreCall, Table};

verus! {

/// Where a request on todos stands.
pub type TodoFlow = Flow<Todo, UpdateTodo>;

/// The step that a request on todos takes on `answer`, at time `now`.
pub open spec fn todo_step(flow: TodoFlow, answer: Answer<Todo>, now: Timestamp) -> NextView<Todo, UpdateTodo> {
    match flow {
        Flow::Checking { candidate } => checking_step(Table::Todo, answer, candidate.stamped_spec(now)),
        Flow::Reading { id, patch } => reading_step(
            Table::Todo,
            id,
            answer,
            |found: Todo| found.merged_spec(patch, now),
        ),
        _ => common_step(Table::Todo, flow, answer),
    }
}

/// GET of every todo.
pub fn get_all_todos<S>(repo: &TodoRepository<S>) -> (r: Next<Todo, UpdateTodo>)
    ensures
        r@ == (NextView::Call {
            flow: Flow::<Todo, UpdateTodo>::Listing,
            call: StoreCall::<Todo>::SelectAll { table: Table::Todo },
        }),
{
    Next::Call { flow: Flow::Listing, call: repo.get_all() }
}

/// GET of the todo with key `id`.
pub fn get_todo_by_id<S>(repo: &TodoRepository<S>, id: String) -> (r: Next<Todo, UpdateTodo>)
    ensures
        r@ == (NextView::Call {
            flow: Flow::<Todo, UpdateTodo>::Fetching { field: Field::Id, value: id },
            call: StoreCall::<Todo>::SelectById { table: Table::Todo, id },
        }),
{
    let key = id.clone();
    Next::Call { flow: Flow::Fetching { field: Field::Id, value: id }, call: repo.get_by_id(key) }
}

/// GET of the todo titled `title`.
pub fn get_todo_by_title<S>(repo: &TodoRepository<S>, title: String) -> (r: Next<Todo, UpdateTodo>)
    ensures
        r@ == (NextView::Call {
            flow: Flow::<Todo, UpdateTodo>::Fetching { field: Field::Title, value: title },
            call: StoreCall::<Todo>::SelectWhere { table: Table::Todo, field: Field::Title, value: title },
        }),
{
    let value = title.clone();
    Next::Call {
        flow: Flow::Fetching { field: Field::Title, value: title },
        call: repo.get_by_title(value),
    }
}

/// POST of a new todo: first looks for a todo with the same title.
pub fn create_todo<S>(repo: &TodoRepository<S>, body: CreateTodo) -> (r: Next<Todo, UpdateTodo>)
    ensures
        r@ == (NextView::Call {
            flow: Flow::<Todo, UpdateTodo>::Checking { candidate: Todo::requested(body) },
            call: StoreCall::<Todo>::SelectWhere {
                table: Table::Todo,
                field: Field::Title,
                value: body.title,
            },
        }),
{
    let title = body.title.clone();
    Next::Call {
        flow: Flow::Checking { candidate: Todo::from_request(body) },
        call: repo.get_by_title(title),
    }
}

/// PUT of the fields of `body` onto the todo `id`: first reads the todo.
pub fn update_todo<S>(repo: &TodoRepository<S>, id: String, body: UpdateTodoRequest) -> (r: Next<
    Todo,
    UpdateTodo,
>)
    ensures
        r@ == (NextView::Call {
            flow: Flow::Reading {
                id,
                patch: UpdateTodo { title: body.title, content: body.content, completed: body.completed },
            },
            call: StoreCall::<Todo>::SelectById { table: Table::Todo, id },
        }),
{
    let key = id.clone();
    Next::Call { flow: Flow::Reading { id, patch: body.into_patch() }, call: repo.get_by_id(key) }
}

/// DELETE of the todo `id`: first checks that it exists.
pub fn delete_todo<S>(repo: &TodoRepository<S>, id: String) -> (r: Next<Todo, UpdateTodo>)
    ensures
        r@ == (NextView::Call {
            flow: Flow::<Todo, UpdateTodo>::Confirming { id },
            call: StoreCall::<Todo>::SelectById { table: Table::Todo, id },
        }),
{
    let key = id.clone();
    Next::Call { flow: Flow::Confirming { id }, call: repo.get_by_id(key) }
}

/// Takes a request on todos one step on, given the answer to its last call
/// and the time `now`, which stamps what it writes.
pub fn step_todo_at<S>(
    repo: &TodoRepository<S>,
    flow: TodoFlow,
    answer: Answer<Todo>,
    now: Timestamp,
) -> (r: Next<Todo, UpdateTodo>)
    ensures
        r@ == todo_step(flow, answer, now),
{
    match flow {
        Flow::Checking { candidate } => {
            if answer.is_failed() {
                return fail(Table::Todo, Operation::Create);
            }
            match answer.into_first() {
                Some(existing) => conflict(Table::Todo, existing),
                None => Next::Call { flow: Flow::Creating, call: repo.create(candidate.stamped(now)) },
            }
        },
        Flow::Reading { id, patch } => {
            if answer.is_failed() {
                return fail(Table::Todo, Operation::Update);
            }
            match answer.into_first() {
                Some(found) => Next::Call {
                    flow: Flow::Updating,
                    call: repo.update(id, found.merged(patch, now)),
                },
                None => not_found(Table::Todo, Field::Id, id),
            }
        },
        _ => advance(Table::Todo, flow, answer),
    }
}

/// Takes a request on todos one step on, stamping what it writes with the
/// current time. The result is `todo_step` at some time; which one, the
/// clock decides.
pub fn step_todo<S>(repo: &TodoRepository<S>, flow: TodoFlow, answer: Answer<Todo>) -> (r: Next<
    Todo,
    UpdateTodo,
>)
    ensures
        exists|now: Timestamp| r@ == todo_step(flow, answer, now),
{
    let now = current_time();
    step_todo_at(repo, flow, answer, now)
}

} // verus!
