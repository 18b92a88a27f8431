//! The request protocols, as state machines driven by the store's answers.
//!
//! A handler starts a flow, which asks for a store call. Whoever runs the
//! call hands the answer back to the table's step function, which either
//! asks for the next call or gives the reply. Every flow makes at most two
//! calls: a read, then the write that the read allows.
use vstd::prelude::*;

use crate::reply::{
    Message, Operation, Payload, PayloadView, Reply, ReplyView, BAD_REQUEST, CREATED,
    INTERNAL_SERVER_ERROR, NOT_FOUND, NO_CONTENT, OK,
};
use crate::store::{first_row, all_rows, Answer, Field, StoreCall, Table};

verus! {

/// Where a request stands: which answer it waits for, and what it keeps
/// for the steps after it. `T` is the record, `P` the patch that an
/// update applies.
#[derive(Debug)]
pub enum Flow<T, P> {
    /// Waits for every record of the table.
    Listing,
    /// Waits for the record whose `field` is `value`.
    Fetching { field: Field, value: String },
    /// Waits for the records that share the unique field of `candidate`,
    /// which is created only where there are none.
    Checking { candidate: T },
    /// Waits for the created record.
    Creating,
    /// Waits for the record `id`, which `patch` is then merged into.
    Reading { id: String, patch: P },
    /// Waits for the updated record.
    Updating,
    /// Waits for the record `id`, which is then deleted.
    Confirming { id: String },
    /// Waits for the deleted record `id`.
    Deleting { id: String },
}

/// What a request does next: make a store call and wait in `flow` for its
/// answer, or reply.
#[derive(Debug)]
pub enum Next<T, P> {
    Call { flow: Flow<T, P>, call: StoreCall<T> },
    Respond(Reply<T>),
}

pub enum NextView<T, P> {
    Call { flow: Flow<T, P>, call: StoreCall<T> },
    Respond(ReplyView<T>),
}

impl<T, P> View for Next<T, P> {
    type V = NextView<T, P>;

    open spec fn view(&self) -> NextView<T, P> {
        match self {
            Next::Call { flow, call } => NextView::Call { flow: *flow, call: *call },
            Next::Respond(reply) => NextView::Respond(reply@),
        }
    }
}

pub open spec fn respond<T, P>(code: u16, message: Option<Message>, payload: PayloadView<T>) -> NextView<T, P> {
    NextView::Respond(ReplyView { code, message, payload })
}

pub open spec fn failure<T, P>(table: Table, operation: Operation) -> NextView<T, P> {
    respond(INTERNAL_SERVER_ERROR, Some(Message::Failed { table, operation }), PayloadView::Nothing)
}

pub open spec fn missing<T, P>(table: Table, field: Field, value: String) -> NextView<T, P> {
    respond(NOT_FOUND, Some(Message::NotFound { table, field, value }), PayloadView::Nothing)
}

/// The step of a create request once the uniqueness query has answered:
/// a conflict where a record already holds the value, else the write of
/// `written`. A failed query ends the request.
pub open spec fn checking_step<T, P>(table: Table, answer: Answer<T>, written: T) -> NextView<T, P> {
    if answer is Failed {
        failure(table, Operation::Create)
    } else {
        match first_row(answer) {
            Some(existing) => respond(
                BAD_REQUEST,
                Some(Message::AlreadyExists { table }),
                PayloadView::One(existing),
            ),
            None => NextView::Call {
                flow: Flow::Creating,
                call: StoreCall::Create { table, content: written },
            },
        }
    }
}

/// The step of an update request once the record has been read: the write
/// of the merged record where it exists, else not found.
pub open spec fn reading_step<T, P>(
    table: Table,
    id: String,
    answer: Answer<T>,
    merge: spec_fn(T) -> T,
) -> NextView<T, P> {
    if answer is Failed {
        failure(table, Operation::Update)
    } else {
        match first_row(answer) {
            Some(found) => NextView::Call {
                flow: Flow::Updating,
                call: StoreCall::Update { table, id, content: merge(found) },
            },
            None => missing(table, Field::Id, id),
        }
    }
}

/// The step of every other stage, which is the same for all tables.
pub open spec fn common_step<T, P>(table: Table, flow: Flow<T, P>, answer: Answer<T>) -> NextView<T, P> {
    match flow {
        Flow::Listing => respond(OK, None, PayloadView::Many(all_rows(answer))),
        Flow::Fetching { field, value } => if answer is Failed {
            failure(table, Operation::Fetch)
        } else {
            match first_row(answer) {
                Some(found) => respond(OK, None, PayloadView::One(found)),
                None => missing(table, field, value),
            }
        },
        Flow::Creating => match first_row(answer) {
            Some(created) => respond(CREATED, None, PayloadView::One(created)),
            None => failure(table, Operation::Create),
        },
        Flow::Updating => match first_row(answer) {
            Some(updated) => respond(OK, None, PayloadView::One(updated)),
            None => failure(table, Operation::Update),
        },
        Flow::Confirming { id } => if answer is Failed {
            failure(table, Operation::Delete)
        } else {
            match first_row(answer) {
                Some(_) => NextView::Call {
                    flow: Flow::Deleting { id },
                    call: StoreCall::Delete { table, id },
                },
                None => missing(table, Field::Id, id),
            }
        },
        Flow::Deleting { id } => if answer is Failed {
            failure(table, Operation::Delete)
        } else {
            match first_row(answer) {
                Some(deleted) => respond(
                    NO_CONTENT,
                    Some(Message::Deleted { table }),
                    PayloadView::One(deleted),
                ),
                None => missing(table, Field::Id, id),
            }
        },
        Flow::Checking { .. } | Flow::Reading { .. } => arbitrary(),
    }
}

pub fn fail<T, P>(table: Table, operation: Operation) -> (r: Next<T, P>)
    ensures
        r@ == failure::<T, P>(table, operation),
{
    Next::Respond(
        Reply {
            code: INTERNAL_SERVER_ERROR,
            message: Some(Message::Failed { table, operation }),
            payload: Payload::Nothing,
        },
    )
}

pub fn not_found<T, P>(table: Table, field: Field, value: String) -> (r: Next<T, P>)
    ensures
        r@ == missing::<T, P>(table, field, value),
{
    Next::Respond(
        Reply {
            code: NOT_FOUND,
            message: Some(Message::NotFound { table, field, value }),
            payload: Payload::Nothing,
        },
    )
}

pub fn conflict<T, P>(table: Table, existing: T) -> (r: Next<T, P>)
    ensures
        r@ == respond::<T, P>(
            BAD_REQUEST,
            Some(Message::AlreadyExists { table }),
            PayloadView::One(existing),
        ),
{
    Next::Respond(
        Reply {
            code: BAD_REQUEST,
            message: Some(Message::AlreadyExists { table }),
            payload: Payload::One(existing),
        },
    )
}

fn success<T, P>(code: u16, message: Option<Message>, record: T) -> (r: Next<T, P>)
    ensures
        r@ == respond::<T, P>(code, message, PayloadView::One(record)),
{
    Next::Respond(Reply { code, message, payload: Payload::One(record) })
}

/// Takes a request one step on, for every stage but `Checking` and
/// `Reading`, whose writes depend on the table.
pub fn advance<T, P>(table: Table, flow: Flow<T, P>, answer: Answer<T>) -> (r: Next<T, P>)
    requires
        !(flow is Checking),
        !(flow is Reading),
    ensures
        r@ == common_step(table, flow, answer),
{
    match flow {
        Flow::Listing => Next::Respond(
            Reply { code: OK, message: None, payload: Payload::Many(answer.into_rows()) },
        ),
        Flow::Fetching { field, value } => {
            if answer.is_failed() {
                return fail(table, Operation::Fetch);
            }
            match answer.into_first() {
                Some(found) => success(OK, None, found),
                None => not_found(table, field, value),
            }
        },
        Flow::Creating => match answer.into_first() {
            Some(created) => success(CREATED, None, created),
            None => fail(table, Operation::Create),
        },
        Flow::Updating => match answer.into_first() {
            Some(updated) => success(OK, None, updated),
            None => fail(table, Operation::Update),
        },
        Flow::Confirming { id } => {
            if answer.is_failed() {
                return fail(table, Operation::Delete);
            }
            match answer.into_first() {
                Some(_) => {
                    let key = id.clone();
                    Next::Call { flow: Flow::Deleting { id }, call: StoreCall::Delete { table, id: key } }
                },
                None => not_found(table, Field::Id, id),
            }
        },
        Flow::Deleting { id } => {
            if answer.is_failed() {
                return fail(table, Operation::Delete);
            }
            match answer.into_first() {
                Some(deleted) => success(NO_CONTENT, Some(Message::Deleted { table }), deleted),
                None => not_found(table, Field::Id, id),
            }
        },
        Flow::Checking { .. } | Flow::Reading { .. } => unreached(),
    }
}

} // verus!
