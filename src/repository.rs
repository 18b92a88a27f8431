use vstd::prelude::*;

use crate::model::{Role, Todo, User};
use crate::store::{Field, StoreCall, Table};
use std::sync::Arc;

verus! {

/// Relies on Arc::clone: a second handle on the same shared value.
#[verifier::external_body]
fn share<S>(db: &Arc<S>) -> (r: Arc<S>)
    ensures
        r == *db,
{
    Arc::clone(db)
}

/// The shared store handle, from which each table's repository is made.
pub struct DataContext<S> {
    db: Arc<S>,
}

impl<S> DataContext<S> {
    pub closed spec fn db(&self) -> Arc<S> {
        self.db
    }

    pub fn new(db: Arc<S>) -> (r: Self)
        ensures
            r.db() == db,
    {
        DataContext { db }
    }

    pub fn todos(&self) -> (r: TodoRepository<S>)
        ensures
            r.db() == self.db(),
    {
        TodoRepository::new(share(&self.db))
    }

    pub fn users(&self) -> (r: UsersRepository<S>)
        ensures
            r.db() == self.db(),
    {
        UsersRepository::new(share(&self.db))
    }

    pub fn roles(&self) -> (r: RoleRepository<S>)
        ensures
            r.db() == self.db(),
    {
        RoleRepository::new(share(&self.db))
    }
}

/// The calls on the table of todos.
pub struct TodoRepository<S> {
    db: Arc<S>,
}

impl<S> TodoRepository<S> {
    pub closed spec fn db(&self) -> Arc<S> {
        self.db
    }

    pub fn new(db: Arc<S>) -> (r: Self)
        ensures
            r.db() == db,
    {
        TodoRepository { db }
    }

    /// The store handle that the calls go to.
    pub fn store(&self) -> (r: &Arc<S>)
        ensures
            *r == self.db(),
    {
        &self.db
    }

    pub fn get_all(&self) -> (r: StoreCall<Todo>)
        ensures
            r == (StoreCall::<Todo>::SelectAll { table: Table::Todo }),
    {
        StoreCall::SelectAll { table: Table::Todo }
    }

    pub fn get_by_id(&self, id: String) -> (r: StoreCall<Todo>)
        ensures
            r == (StoreCall::<Todo>::SelectById { table: Table::Todo, id }),
    {
        StoreCall::SelectById { table: Table::Todo, id }
    }

    pub fn get_by_title(&self, title: String) -> (r: StoreCall<Todo>)
        ensures
            r == (StoreCall::<Todo>::SelectWhere { table: Table::Todo, field: Field::Title, value: title }),
    {
        StoreCall::SelectWhere { table: Table::Todo, field: Field::Title, value: title }
    }

    pub fn create(&self, content: Todo) -> (r: StoreCall<Todo>)
        ensures
            r == (StoreCall::Create { table: Table::Todo, content }),
    {
        StoreCall::Create { table: Table::Todo, content }
    }

    pub fn update(&self, id: String, content: Todo) -> (r: StoreCall<Todo>)
        ensures
            r == (StoreCall::Update { table: Table::Todo, id, content }),
    {
        StoreCall::Update { table: Table::Todo, id, content }
    }

    pub fn delete(&self, id: String) -> (r: StoreCall<Todo>)
        ensures
            r == (StoreCall::<Todo>::Delete { table: Table::Todo, id }),
    {
        StoreCall::Delete { table: Table::Todo, id }
    }
}

/// The calls on the table of users.
pub struct UsersRepository<S> {
    db: Arc<S>,
}

impl<S> UsersRepository<S> {
    pub closed spec fn db(&self) -> Arc<S> {
        self.db
    }

    pub fn new(db: Arc<S>) -> (r: Self)
        ensures
            r.db() == db,
    {
        UsersRepository { db }
    }

    /// The store handle that the calls go to.
    pub fn store(&self) -> (r: &Arc<S>)
        ensures
            *r == self.db(),
    {
        &self.db
    }

    pub fn get_all(&self) -> (r: StoreCall<User>)
        ensures
            r == (StoreCall::<User>::SelectAll { table: Table::User }),
    {
        StoreCall::SelectAll { table: Table::User }
    }

    pub fn get_by_id(&self, id: String) -> (r: StoreCall<User>)
        ensures
            r == (StoreCall::<User>::SelectById { table: Table::User, id }),
    {
        StoreCall::SelectById { table: Table::User, id }
    }

    pub fn get_by_email(&self, email: String) -> (r: StoreCall<User>)
        ensures
            r == (StoreCall::<User>::SelectWhere { table: Table::User, field: Field::Email, value: email }),
    {
        StoreCall::SelectWhere { table: Table::User, field: Field::Email, value: email }
    }

    pub fn get_by_phone(&self, phone: String) -> (r: StoreCall<User>)
        ensures
            r == (StoreCall::<User>::SelectWhere { table: Table::User, field: Field::Phone, value: phone }),
    {
        StoreCall::SelectWhere { table: Table::User, field: Field::Phone, value: phone }
    }

    pub fn create(&self, content: User) -> (r: StoreCall<User>)
        ensures
            r == (StoreCall::Create { table: Table::User, content }),
    {
        StoreCall::Create { table: Table::User, content }
    }

    pub fn update(&self, id: String, content: User) -> (r: StoreCall<User>)
        ensures
            r == (StoreCall::Update { table: Table::User, id, content }),
    {
        StoreCall::Update { table: Table::User, id, content }
    }

    pub fn delete(&self, id: String) -> (r: StoreCall<User>)
        ensures
            r == (StoreCall::<User>::Delete { table: Table::User, id }),
    {
        StoreCall::Delete { table: Table::User, id }
    }
}

/// The calls on the table of roles.
pub struct RoleRepository<S> {
    db: Arc<S>,
}

impl<S> RoleRepository<S> {
    pub closed spec fn db(&self) -> Arc<S> {
        self.db
    }

    pub fn new(db: Arc<S>) -> (r: Self)
        ensures
            r.db() == db,
    {
        RoleRepository { db }
    }

    /// The store handle that the calls go to.
    pub fn store(&self) -> (r: &Arc<S>)
        ensures
            *r == self.db(),
    {
        &self.db
    }

    pub fn get_all(&self) -> (r: StoreCall<Role>)
        ensures
            r == (StoreCall::<Role>::SelectAll { table: Table::Role }),
    {
        StoreCall::SelectAll { table: Table::Role }
    }

    pub fn get_by_id(&self, id: String) -> (r: StoreCall<Role>)
        ensures
            r == (StoreCall::<Role>::SelectById { table: Table::Role, id }),
    {
        StoreCall::SelectById { table: Table::Role, id }
    }

    pub fn get_by_name(&self, name: String) -> (r: StoreCall<Role>)
        ensures
            r == (StoreCall::<Role>::SelectWhere { table: Table::Role, field: Field::Name, value: name }),
    {
        StoreCall::SelectWhere { table: Table::Role, field: Field::Name, value: name }
    }

    pub fn create(&self, content: Role) -> (r: StoreCall<Role>)
        ensures
            r == (StoreCall::Create { table: Table::Role, content }),
    {
        StoreCall::Create { table: Table::Role, content }
    }

    pub fn update(&self, id: String, content: Role) -> (r: StoreCall<Role>)
        ensures
            r == (StoreCall::Update { table: Table::Role, id, content }),
    {
        StoreCall::Update { table: Table::Role, id, content }
    }

    pub fn delete(&self, id: String) -> (r: StoreCall<Role>)
        ensures
            r == (StoreCall::<Role>::Delete { table: Table::Role, id }),
    {
        StoreCall::Delete { table: Table::Role, id }
    }
}

} // verus!
