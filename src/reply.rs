use vstd::prelude::*;

use crate::store::{Field, Table};

verus! {

/// A write that a request makes, named in failure messages.
#[derive(Clone, Copy, Debug, PartialEq, Eq, Structural)]
pub enum Operation {
    Fetch,
    Create,
    Update,
    Delete,
}

impl Operation {
    pub open spec fn verb_spec(self) -> Seq<char> {
        match self {
            Operation::Fetch => "fetch"@,
            Operation::Create => "create"@,
            Operation::Update => "update"@,
            Operation::Delete => "delete"@,
        }
    }

    pub fn verb(&self) -> (r: &'static str)
        ensures
            r@ == self.verb_spec(),
    {
        match self {
            Operation::Fetch => "fetch",
            Operation::Create => "create",
            Operation::Update => "update",
            Operation::Delete => "delete",
        }
    }
}

/// The message that a reply carries.
#[derive(Debug)]
pub enum Message {
    /// No record of `table` has `field` equal to `value`.
    NotFound { table: Table, field: Field, value: String },
    /// A record with the same unique field is already stored.
    AlreadyExists { table: Table },
    /// The store failed on a call of the request.
    Failed { table: Table, operation: Operation },
    /// The record was removed.
    Deleted { table: Table },
}

impl Message {
    /// The message as text.
    pub open spec fn text_spec(self) -> Seq<char> {
        match self {
            Message::NotFound { table, field, value } => table.noun_spec() + " with "@
                + field.label_spec() + ": "@ + value@ + " not found"@,
            Message::AlreadyExists { table } => table.noun_spec() + " already exists"@,
            Message::Failed { table, operation } => "Failed to "@ + operation.verb_spec() + " "@
                + table.name_spec(),
            Message::Deleted { table } => table.noun_spec() + " deleted successfully"@,
        }
    }

    pub fn text(&self) -> (r: String)
        ensures
            r@ == self.text_spec(),
    {
        match self {
            Message::NotFound { table, field, value } => String::from_str(table.noun()).concat(
                " with ",
            ).concat(field.label()).concat(": ").concat(value.as_str()).concat(" not found"),
            Message::AlreadyExists { table } => String::from_str(table.noun()).concat(
                " already exists",
            ),
            Message::Failed { table, operation } => String::from_str("Failed to ").concat(
                operation.verb(),
            ).concat(" ").concat(table.name()),
            Message::Deleted { table } => String::from_str(table.noun()).concat(
                " deleted successfully",
            ),
        }
    }
}

/// The records that a reply carries.
#[derive(Debug)]
pub enum Payload<T> {
    Nothing,
    One(T),
    Many(Vec<T>),
}

pub enum PayloadView<T> {
    Nothing,
    One(T),
    Many(Seq<T>),
}

impl<T> View for Payload<T> {
    type V = PayloadView<T>;

    open spec fn view(&self) -> PayloadView<T> {
        match self {
            Payload::Nothing => PayloadView::Nothing,
            Payload::One(x) => PayloadView::One(*x),
            Payload::Many(v) => PayloadView::Many(v@),
        }
    }
}

/// The answer to a request: an HTTP status code, an optional message and
/// the records it returns. Codes under 400 are successes.
#[derive(Debug)]
pub struct Reply<T> {
    pub code: u16,
    pub message: Option<Message>,
    pub payload: Payload<T>,
}

pub struct ReplyView<T> {
    pub code: u16,
    pub message: Option<Message>,
    pub payload: PayloadView<T>,
}

impl<T> View for Reply<T> {
    type V = ReplyView<T>;

    open spec fn view(&self) -> ReplyView<T> {
        ReplyView { code: self.code, message: self.message, payload: self.payload@ }
    }
}

pub const OK: u16 = 200;

pub const CREATED: u16 = 201;

pub const NO_CONTENT: u16 = 204;

pub const BAD_REQUEST: u16 = 400;

pub const NOT_FOUND: u16 = 404;

pub const INTERNAL_SERVER_ERROR: u16 = 500;

/// The number of records that a payload carries.
pub open spec fn payload_count<T>(p: PayloadView<T>) -> nat {
    match p {
        PayloadView::Nothing => 0,
        PayloadView::One(_) => 1,
        PayloadView::Many(s) => s.len(),
    }
}

impl<T> Reply<T> {
    /// The status word of the reply's envelope.
    pub open spec fn status_spec(&self) -> Seq<char> {
        if self.code < 400 {
            "success"@
        } else {
            "error"@
        }
    }

    pub fn status(&self) -> (r: &'static str)
        ensures
            r@ == self.status_spec(),
    {
        if self.code < 400 {
            "success"
        } else {
            "error"
        }
    }

    /// The number of records that the reply carries.
    pub fn count(&self) -> (r: usize)
        ensures
            r == payload_count(self.payload@),
    {
        match &self.payload {
            Payload::Nothing => 0,
            Payload::One(_) => 1,
            Payload::Many(v) => v.len(),
        }
    }
}

} // verus!
