use vstd::prelude::*;

use crate::clock::Timestamp;

verus! {

/// A reference to a stored record: its table and its key within the table.
#[derive(Clone, Debug, PartialEq, Eq)]
pub struct RecordId {
    pub table: String,
    pub key: String,
}

/// A task on a todo list.
#[derive(Clone, Debug, PartialEq, Eq)]
pub struct Todo {
    pub id: Option<RecordId>,
    pub title: String,
    pub content: Option<String>,
    pub completed: Option<bool>,
    pub created_at: Option<Timestamp>,
    pub updated_at: Option<Timestamp>,
}

/// The body of a request that creates a todo.
#[derive(Clone, Debug, PartialEq, Eq)]
pub struct CreateTodo {
    pub title: String,
    pub content: Option<String>,
    pub completed: Option<bool>,
}

/// The fields of a todo that an update may change; `None` keeps the old value.
#[derive(Clone, Debug, PartialEq, Eq)]
pub struct UpdateTodo {
    pub title: Option<String>,
    pub content: Option<String>,
    pub completed: Option<bool>,
}

/// The body of a request that updates a todo.
#[derive(Clone, Debug, PartialEq, Eq)]
pub struct UpdateTodoRequest {
    pub title: Option<String>,
    pub content: Option<String>,
    pub completed: Option<bool>,
}

/// A user of the service, optionally holding one role.
#[derive(Clone, Debug, PartialEq, Eq)]
pub struct User {
    pub id: Option<RecordId>,
    pub name: String,
    pub email: String,
    pub phone: Option<String>,
    pub role: Option<RecordId>,
    pub created_at: Option<Timestamp>,
    pub updated_at: Option<Timestamp>,
}

/// The body of a request that creates a user.
#[derive(Clone, Debug, PartialEq, Eq)]
pub struct CreateUser {
    pub name: String,
    pub email: String,
    pub phone: Option<String>,
    pub role: Option<RecordId>,
}

/// The body of a request that updates a user: name and email are always
/// replaced, phone and role only when given.
#[derive(Clone, Debug, PartialEq, Eq)]
pub struct UpdateUser {
    pub name: String,
    pub email: String,
    pub phone: Option<String>,
    pub role: Option<RecordId>,
}

/// A named role that users may hold.
#[derive(Clone, Debug, PartialEq, Eq)]
pub struct Role {
    pub id: Option<RecordId>,
    pub name: String,
    pub users: Option<Vec<RecordId>>,
    pub created_at: Option<Timestamp>,
    pub updated_at: Option<Timestamp>,
}

/// The body of a request that creates a role.
#[derive(Clone, Debug, PartialEq, Eq)]
pub struct CreateRole {
    pub name: String,
}

/// The body of a request that renames a role.
#[derive(Clone, Debug, PartialEq, Eq)]
pub struct UpdateRole {
    pub name: String,
}

/// `new` where it is given, else `old`.
pub open spec fn given_or<A>(new: Option<A>, old: A) -> A {
    match new {
        Some(v) => v,
        None => old,
    }
}

/// `new` where it is given, else `old`.
pub open spec fn given_or_kept<A>(new: Option<A>, old: Option<A>) -> Option<A> {
    match new {
        Some(v) => Some(v),
        None => old,
    }
}

fn pick<A>(new: Option<A>, old: A) -> (r: A)
    ensures
        r == given_or(new, old),
{
    match new {
        Some(v) => v,
        None => old,
    }
}

fn pick_kept<A>(new: Option<A>, old: Option<A>) -> (r: Option<A>)
    ensures
        r == given_or_kept(new, old),
{
    match new {
        Some(v) => Some(v),
        None => old,
    }
}

impl Todo {
    /// The todo that a create request asks for, before it is stored.
    pub open spec fn requested(body: CreateTodo) -> Todo {
        Todo {
            id: None,
            title: body.title,
            content: body.content,
            completed: body.completed,
            created_at: None,
            updated_at: None,
        }
    }

    /// A new todo as it is written: not completed, created and updated at `now`.
    pub open spec fn stamped_spec(self, now: Timestamp) -> Todo {
        Todo { completed: Some(false), created_at: Some(now), updated_at: Some(now), ..self }
    }

    /// `self` with the fields that `patch` gives, updated at `now`.
    pub open spec fn merged_spec(self, patch: UpdateTodo, now: Timestamp) -> Todo {
        Todo {
            title: given_or(patch.title, self.title),
            content: given_or_kept(patch.content, self.content),
            completed: given_or_kept(patch.completed, self.completed),
            updated_at: Some(now),
            ..self
        }
    }

    pub fn from_request(body: CreateTodo) -> (r: Todo)
        ensures
            r == Todo::requested(body),
    {
        Todo {
            id: None,
            title: body.title,
            content: body.content,
            completed: body.completed,
            created_at: None,
            updated_at: None,
        }
    }

    pub fn stamped(self, now: Timestamp) -> (r: Todo)
        ensures
            r == self.stamped_spec(now),
    {
        Todo { completed: Some(false), created_at: Some(now), updated_at: Some(now), ..self }
    }

    pub fn merged(self, patch: UpdateTodo, now: Timestamp) -> (r: Todo)
        ensures
            r == self.merged_spec(patch, now),
    {
        Todo {
            id: self.id,
            title: pick(patch.title, self.title),
            content: pick_kept(patch.content, self.content),
            completed: pick_kept(patch.completed, self.completed),
            created_at: self.created_at,
            updated_at: Some(now),
        }
    }
}

impl UpdateTodoRequest {
    pub fn into_patch(self) -> (r: UpdateTodo)
        ensures
            r == (UpdateTodo { title: self.title, content: self.content, completed: self.completed }),
    {
        UpdateTodo { title: self.title, content: self.content, completed: self.completed }
    }
}

impl User {
    /// The user that a create request asks for, before it is stored.
    pub open spec fn requested(body: CreateUser) -> User {
        User {
            id: None,
            name: body.name,
            email: body.email,
            phone: body.phone,
            role: body.role,
            created_at: None,
            updated_at: None,
        }
    }

    /// A new user as it is written: created and updated at `now`.
    pub open spec fn stamped_spec(self, now: Timestamp) -> User {
        User { created_at: Some(now), updated_at: Some(now), ..self }
    }

    /// `self` with the name and email of `patch`, its phone and role where
    /// given, updated at `now`.
    pub open spec fn merged_spec(self, patch: UpdateUser, now: Timestamp) -> User {
        User {
            name: patch.name,
            email: patch.email,
            phone: given_or_kept(patch.phone, self.phone),
            role: given_or_kept(patch.role, self.role),
            updated_at: Some(now),
            ..self
        }
    }

    pub fn from_request(body: CreateUser) -> (r: User)
        ensures
            r == User::requested(body),
    {
        User {
            id: None,
            name: body.name,
            email: body.email,
            phone: body.phone,
            role: body.role,
            created_at: None,
            updated_at: None,
        }
    }

    pub fn stamped(self, now: Timestamp) -> (r: User)
        ensures
            r == self.stamped_spec(now),
    {
        User { created_at: Some(now), updated_at: Some(now), ..self }
    }

    pub fn merged(self, patch: UpdateUser, now: Timestamp) -> (r: User)
        ensures
            r == self.merged_spec(patch, now),
    {
        User {
            id: self.id,
            name: patch.name,
            email: patch.email,
            phone: pick_kept(patch.phone, self.phone),
            role: pick_kept(patch.role, self.role),
            created_at: self.created_at,
            updated_at: Some(now),
        }
    }
}

impl Role {
    /// The role that a create request asks for, before it is stored.
    pub open spec fn requested(body: CreateRole) -> Role {
        Role { id: None, name: body.name, users: None, created_at: None, updated_at: None }
    }

    /// A new role as it is written: created and updated at `now`.
    pub open spec fn stamped_spec(self, now: Timestamp) -> Role {
        Role { created_at: Some(now), updated_at: Some(now), ..self }
    }

    /// `self` renamed as `patch` says, updated at `now`.
    pub open spec fn merged_spec(self, patch: UpdateRole, now: Timestamp) -> Role {
        Role { name: patch.name, updated_at: Some(now), ..self }
    }

    pub fn from_request(body: CreateRole) -> (r: Role)
        ensures
            r == Role::requested(body),
    {
        Role { id: None, name: body.name, users: None, created_at: None, updated_at: None }
    }

    pub fn stamped(self, now: Timestamp) -> (r: Role)
        ensures
            r == self.stamped_spec(now),
    {
        Role { created_at: Some(now), updated_at: Some(now), ..self }
    }

    pub fn merged(self, patch: UpdateRole, now: Timestamp) -> (r: Role)
        ensures
            r == self.merged_spec(patch, now),
    {
        Role {
            id: self.id,
            name: patch.name,
            users: self.users,
            created_at: self.created_at,
            updated_at: Some(now),
        }
    }
}

} // verus!
