//! The requests on users: list, fetch by id, email or phone, create with a
//! unique email, update, delete.
use vstd::prelude::*;

use crate::clock::{current_time, Timestamp};
use crate::flow::{
    advance, checking_step, common_step, conflict, fail, not_found, reading_step, Flow, Next,
    NextView,
};
use crate::model::{CreateUser, UpdateUser, User};
use crate::reply::Operation;
use crate::repository::UsersRepository;
use crate::store::{Answer, Field, StoreCall, Table};

verus! {

/// Where a request on users stands.
pub type UserFlow = Flow<User, UpdateUser>;

/// The step that a request on users takes on `answer`, at time `now`.
pub open spec fn user_step(flow: UserFlow, answer: Answer<User>, now: Timestamp) -> NextView<User, UpdateUser> {
    match flow {
        Flow::Checking { candidate } => checking_step(Table::User, answer, candidate.stamped_spec(now)),
        Flow::Reading { id, patch } => reading_step(
            Table::User,
            id,
            answer,
            |found: User| found.merged_spec(patch, now),
        ),
        _ => common_step(Table::User, flow, answer),
    }
}

/// GET of every user.
pub fn get_all_users<S>(repo: &UsersRepository<S>) -> (r: Next<User, UpdateUser>)
    ensures
        r@ == (NextView::Call {
            flow: Flow::<User, UpdateUser>::Listing,
            call: StoreCall::<User>::SelectAll { table: Table::User },
        }),
{
    Next::Call { flow: Flow::Listing, call: repo.get_all() }
}

/// GET of the user with key `id`.
pub fn get_user_by_id<S>(repo: &UsersRepository<S>, id: String) -> (r: Next<User, UpdateUser>)
    ensures
        r@ == (NextView::Call {
            flow: Flow::<User, UpdateUser>::Fetching { field: Field::Id, value: id },
            call: StoreCall::<User>::SelectById { table: Table::User, id },
        }),
{
    let key = id.clone();
    Next::Call { flow: Flow::Fetching { field: Field::Id, value: id }, call: repo.get_by_id(key) }
}

/// GET of the user whose email is `email`.
pub fn get_user_by_email<S>(repo: &UsersRepository<S>, email: String) -> (r: Next<User, UpdateUser>)
    ensures
        r@ == (NextView::Call {
            flow: Flow::<User, UpdateUser>::Fetching { field: Field::Email, value: email },
            call: StoreCall::<User>::SelectWhere { table: Table::User, field: Field::Email, value: email },
        }),
{
    let value = email.clone();
    Next::Call {
        flow: Flow::Fetching { field: Field::Email, value: email },
        call: repo.get_by_email(value),
    }
}

/// GET of the user whose phone is `phone`.
pub fn get_user_by_phone<S>(repo: &UsersRepository<S>, phone: String) -> (r: Next<User, UpdateUser>)
    ensures
        r@ == (NextView::Call {
            flow: Flow::<User, UpdateUser>::Fetching { field: Field::Phone, value: phone },
            call: StoreCall::<User>::SelectWhere { table: Table::User, field: Field::Phone, value: phone },
        }),
{
    let value = phone.clone();
    Next::Call {
        flow: Flow::Fetching { field: Field::Phone, value: phone },
        call: repo.get_by_phone(value),
    }
}

/// POST of a new user: first looks for a user with the same email.
pub fn create_user<S>(repo: &UsersRepository<S>, body: CreateUser) -> (r: Next<User, UpdateUser>)
    ensures
        r@ == (NextView::Call {
            flow: Flow::<User, UpdateUser>::Checking { candidate: User::requested(body) },
            call: StoreCall::<User>::SelectWhere {
                table: Table::User,
                field: Field::Email,
                value: body.email,
            },
        }),
{
    let email = body.email.clone();
    Next::Call {
        flow: Flow::Checking { candidate: User::from_request(body) },
        call: repo.get_by_email(email),
    }
}

/// PUT of `body` onto the user `id`: first reads the user.
pub fn update_user<S>(repo: &UsersRepository<S>, id: String, body: UpdateUser) -> (r: Next<User, UpdateUser>)
    ensures
        r@ == (NextView::Call {
            flow: Flow::Reading { id, patch: body },
            call: StoreCall::<User>::SelectById { table: Table::User, id },
        }),
{
    let key = id.clone();
    Next::Call { flow: Flow::Reading { id, patch: body }, call: repo.get_by_id(key) }
}

/// DELETE of the user `id`: first checks that it exists.
pub fn delete_user<S>(repo: &UsersRepository<S>, id: String) -> (r: Next<User, UpdateUser>)
    ensures
        r@ == (NextView::Call {
            flow: Flow::<User, UpdateUser>::Confirming { id },
            call: StoreCall::<User>::SelectById { table: Table::User, id },
        }),
{
    let key = id.clone();
    Next::Call { flow: Flow::Confirming { id }, call: repo.get_by_id(key) }
}

/// Takes a request on users one step on, given the answer to its last call
/// and the time `now`, which stamps what it writes.
pub fn step_user_at<S>(
    repo: &UsersRepository<S>,
    flow: UserFlow,
    answer: Answer<User>,
    now: Timestamp,
) -> (r: Next<User, UpdateUser>)
    ensures
        r@ == user_step(flow, answer, now),
{
    match flow {
        Flow::Checking { candidate } => {
            if answer.is_failed() {
                return fail(Table::User, Operation::Create);
            }
            match answer.into_first() {
                Some(existing) => conflict(Table::User, existing),
                None => Next::Call { flow: Flow::Creating, call: repo.create(candidate.stamped(now)) },
            }
        },
        Flow::Reading { id, patch } => {
            if answer.is_failed() {
                return fail(Table::User, Operation::Update);
            }
            match answer.into_first() {
                Some(found) => Next::Call {
                    flow: Flow::Updating,
                    call: repo.update(id, found.merged(patch, now)),
                },
                None => not_found(Table::User, Field::Id, id),
            }
        },
        _ => advance(Table::User, flow, answer),
    }
}

/// Takes a request on users one step on, stamping what it writes with the
/// current time. The result is `user_step` at some time; which one, the
/// clock decides.
pub fn step_user<S>(repo: &UsersRepository<S>, flow: UserFlow, answer: Answer<User>) -> (r: Next<
    User,
    UpdateUser,
>)
    ensures
        exists|now: Timestamp| r@ == user_step(flow, answer, now),
{
    let now = current_time();
    step_user_at(repo, flow, answer, now)
}

} // verus!
