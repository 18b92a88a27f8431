//! The requests on roles: list, fetch by id or name, create with a unique
//! name, rename, delete.
use vstd::prelude::*;

use crate::clock::{current_time, Timestamp};
use crate::flow::{
    advance, checking_step, common_step, conflict, fail, not_found, reading_step, Flow, Next,
    NextView,
};
use crate::model::{CreateRole, Role, UpdateRole};
use crate::reply::Operation;
use crate::repository::RoleRepository;
use crate::store::{Answer, Field, StoreCall, Table};

verus! {

/// Where a request on roles stands.
pub type RoleFlow = Flow<Role, UpdateRole>;

/// The step that a request on roles takes on `answer`, at time `now`.
pub open spec fn role_step(flow: RoleFlow, answer: Answer<Role>, now: Timestamp) -> NextView<Role, UpdateRole> {
    match flow {
        Flow::Checking { candidate } => checking_step(Table::Role, answer, candidate.stamped_spec(now)),
        Flow::Reading { id, patch } => reading_step(
            Table::Role,
            id,
            answer,
            |found: Role| found.merged_spec(patch, now),
        ),
        _ => common_step(Table::Role, flow, answer),
    }
}

/// GET of every role.
pub fn get_all_roles<S>(repo: &RoleRepository<S>) -> (r: Next<Role, UpdateRole>)
    ensures
        r@ == (NextView::Call {
            flow: Flow::<Role, UpdateRole>::Listing,
            call: StoreCall::<Role>::SelectAll { table: Table::Role },
        }),
{
    Next::Call { flow: Flow::Listing, call: repo.get_all() }
}

/// GET of the role with key `id`.
pub fn get_role_by_id<S>(repo: &RoleRepository<S>, id: String) -> (r: Next<Role, UpdateRole>)
    ensures
        r@ == (NextView::Call {
            flow: Flow::<Role, UpdateRole>::Fetching { field: Field::Id, value: id },
            call: StoreCall::<Role>::SelectById { table: Table::Role, id },
        }),
{
    let key = id.clone();
    Next::Call { flow: Flow::Fetching { field: Field::Id, value: id }, call: repo.get_by_id(key) }
}

/// GET of the role named `name`.
pub fn get_role_by_name<S>(repo: &RoleRepository<S>, name: String) -> (r: Next<Role, UpdateRole>)
    ensures
        r@ == (NextView::Call {
            flow: Flow::<Role, UpdateRole>::Fetching { field: Field::Name, value: name },
            call: StoreCall::<Role>::SelectWhere { table: Table::Role, field: Field::Name, value: name },
        }),
{
    let value = name.clone();
    Next::Call {
        flow: Flow::Fetching { field: Field::Name, value: name },
        call: repo.get_by_name(value),
    }
}

/// POST of a new role: first looks for a role with the same name.
pub fn create_role<S>(repo: &RoleRepository<S>, body: CreateRole) -> (r: Next<Role, UpdateRole>)
    ensures
        r@ == (NextView::Call {
            flow: Flow::<Role, UpdateRole>::Checking { candidate: Role::requested(body) },
            call: StoreCall::<Role>::SelectWhere {
                table: Table::Role,
                field: Field::Name,
                value: body.name,
            },
        }),
{
    let name = body.name.clone();
    Next::Call {
        flow: Flow::Checking { candidate: Role::from_request(body) },
        call: repo.get_by_name(name),
    }
}

/// PUT of a new name onto the role `id`: first reads the role.
pub fn update_role<S>(repo: &RoleRepository<S>, id: String, body: UpdateRole) -> (r: Next<Role, UpdateRole>)
    ensures
        r@ == (NextView::Call {
            flow: Flow::Reading { id, patch: body },
            call: StoreCall::<Role>::SelectById { table: Table::Role, id },
        }),
{
    let key = id.clone();
    Next::Call { flow: Flow::Reading { id, patch: body }, call: repo.get_by_id(key) }
}

/// DELETE of the role `id`: first checks that it exists.
pub fn delete_role<S>(repo: &RoleRepository<S>, id: String) -> (r: Next<Role, UpdateRole>)
    ensures
        r@ == (NextView::Call {
            flow: Flow::<Role, UpdateRole>::Confirming { id },
            call: StoreCall::<Role>::SelectById { table: Table::Role, id },
        }),
{
    let key = id.clone();
    Next::Call { flow: Flow::Confirming { id }, call: repo.get_by_id(key) }
}

/// Takes a request on roles one step on, given the answer to its last call
/// and the time `now`, which stamps what it writes.
pub fn step_role_at<S>(
    repo: &RoleRepository<S>,
    flow: RoleFlow,
    answer: Answer<Role>,
    now: Timestamp,
) -> (r: Next<Role, UpdateRole>)
    ensures
        r@ == role_step(flow, answer, now),
{
    match flow {
        Flow::Checking { candidate } => {
            if answer.is_failed() {
                return fail(Table::Role, Operation::Create);
            }
            match answer.into_first() {
                Some(existing) => conflict(Table::Role, existing),
                None => Next::Call { flow: Flow::Creating, call: repo.create(candidate.stamped(now)) },
            }
        },
        Flow::Reading { id, patch } => {
            if answer.is_failed() {
                return fail(Table::Role, Operation::Update);
            }
            match answer.into_first() {
                Some(found) => Next::Call {
                    flow: Flow::Updating,
                    call: repo.update(id, found.merged(patch, now)),
                },
                None => not_found(Table::Role, Field::Id, id),
            }
        },
        _ => advance(Table::Role, flow, answer),
    }
}

/// Takes a request on roles one step on, stamping what it writes with the
/// current time. The result is `role_step` at some time; which one, the
/// clock decides.
pub fn step_role<S>(repo: &RoleRepository<S>, flow: RoleFlow, answer: Answer<Role>) -> (r: Next<
    Role,
    UpdateRole,
>)
    ensures
        exists|now: Timestamp| r@ == role_step(flow, answer, now),
{
    let now = current_time();
    step_role_at(repo, flow, answer, now)
}

} // verus!
