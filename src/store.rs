use vstd::prelude::*;

verus! {

/// The tables of the record store.
#[derive(Clone, Copy, Debug, PartialEq, Eq, Structural)]
pub enum Table {
    Todo,
    User,
    Role,
}

/// A field by which a record is looked up.
#[derive(Clone, Copy, Debug, PartialEq, Eq, Structural)]
pub enum Field {
    Id,
    Title,
    Email,
    Phone,
    Name,
}

impl Table {
    pub open spec fn name_spec(self) -> Seq<char> {
        match self {
            Table::Todo => "todo"@,
            Table::User => "user"@,
            Table::Role => "role"@,
        }
    }

    /// How a record of this table is named in messages.
    pub open spec fn noun_spec(self) -> Seq<char> {
        match self {
            Table::Todo => "Todo"@,
            Table::User => "User"@,
            Table::Role => "Role"@,
        }
    }

    /// The table's name in the store.
    pub fn name(&self) -> (r: &'static str)
        ensures
            r@ == self.name_spec(),
    {
        match self {
            Table::Todo => "todo",
            Table::User => "user",
            Table::Role => "role",
        }
    }

    pub fn noun(&self) -> (r: &'static str)
        ensures
            r@ == self.noun_spec(),
    {
        match self {
            Table::Todo => "Todo",
            Table::User => "User",
            Table::Role => "Role",
        }
    }
}

impl Field {
    /// How the field is named in messages.
    pub open spec fn label_spec(self) -> Seq<char> {
        match self {
            Field::Id => "ID"@,
            Field::Title => "title"@,
            Field::Email => "email"@,
            Field::Phone => "phone"@,
            Field::Name => "name"@,
        }
    }

    /// The field's name in stored records; the key of a record for `Id`.
    pub open spec fn column_spec(self) -> Seq<char> {
        match self {
            Field::Id => "id"@,
            Field::Title => "title"@,
            Field::Email => "email"@,
            Field::Phone => "phone"@,
            Field::Name => "name"@,
        }
    }

    pub fn label(&self) -> (r: &'static str)
        ensures
            r@ == self.label_spec(),
    {
        match self {
            Field::Id => "ID",
            Field::Title => "title",
            Field::Email => "email",
            Field::Phone => "phone",
            Field::Name => "name",
        }
    }

    pub fn column(&self) -> (r: &'static str)
        ensures
            r@ == self.column_spec(),
    {
        match self {
            Field::Id => "id",
            Field::Title => "title",
            Field::Email => "email",
            Field::Phone => "phone",
            Field::Name => "name",
        }
    }
}

/// A call on the record store, as a request handler asks for it.
#[derive(Debug)]
pub enum StoreCall<T> {
    /// Every record of the table.
    SelectAll { table: Table },
    /// The record with key `id`, if any.
    SelectById { table: Table, id: String },
    /// The records whose `field` equals `value`.
    SelectWhere { table: Table, field: Field, value: String },
    /// Store `content` as a new record.
    Create { table: Table, content: T },
    /// Replace the content of the record with key `id`.
    Update { table: Table, id: String, content: T },
    /// Remove the record with key `id`.
    Delete { table: Table, id: String },
}

/// What the record store answered to a call.
#[derive(Debug)]
pub enum Answer<T> {
    /// The rows of a select-all or of a filtered query.
    Rows(Vec<T>),
    /// The one row of a call by key or of a create, if there was one.
    Row(Option<T>),
    /// The call failed.
    Failed,
}

/// The row that an answer yields: the first row of a query, the one row of a
/// call by key, nothing from a failed call.
pub open spec fn first_row<T>(answer: Answer<T>) -> Option<T> {
    match answer {
        Answer::Rows(v) => if v@.len() > 0 {
            Some(v@[0])
        } else {
            None
        },
        Answer::Row(o) => o,
        Answer::Failed => None,
    }
}

/// The rows that an answer yields; nothing from a failed call.
pub open spec fn all_rows<T>(answer: Answer<T>) -> Seq<T> {
    match answer {
        Answer::Rows(v) => v@,
        Answer::Row(o) => match o {
            Some(x) => seq![x],
            None => Seq::empty(),
        },
        Answer::Failed => Seq::empty(),
    }
}

/// The answer of a store whose table holds `rows`, records by key, to a call
/// on the key `key`: the record under that key, if there is one. A store
/// answers a delete so too, with the record that it removed.
pub open spec fn answer_at<T>(rows: Map<Seq<char>, T>, key: Seq<char>) -> Answer<T> {
    Answer::Row(
        if rows.contains_key(key) {
            Some(rows[key])
        } else {
            None
        },
    )
}

/// `answer` is what a store whose table holds `rows` gives to a query for
/// the records whose field `unique` equals `value`: each such record, in
/// some order, and no other.
pub open spec fn answers_query<T>(
    rows: Map<Seq<char>, T>,
    unique: spec_fn(T) -> Seq<char>,
    value: Seq<char>,
    answer: Answer<T>,
) -> bool {
    &&& answer matches Answer::Rows(v)
    &&& forall|i: int|
        0 <= i < v@.len() ==> unique(#[trigger] v@[i]) == value && rows.values().contains(v@[i])
    &&& forall|k: Seq<char>|
        rows.contains_key(k) && unique(#[trigger] rows[k]) == value ==> v@.contains(rows[k])
}

impl<T> Answer<T> {
    /// The row that the answer yields (see `first_row`).
    pub fn into_first(self) -> (r: Option<T>)
        ensures
            r == first_row(self),
    {
        match self {
            Answer::Rows(mut v) => {
                if v.len() > 0 {
                    Some(v.remove(0))
                } else {
                    None
                }
            },
            Answer::Row(o) => o,
            Answer::Failed => None,
        }
    }

    /// The rows that the answer yields (see `all_rows`).
    pub fn into_rows(self) -> (r: Vec<T>)
        ensures
            r@ == all_rows(self),
    {
        match self {
            Answer::Rows(v) => v,
            Answer::Row(o) => match o {
                Some(x) => {
                    let mut v: Vec<T> = Vec::new();
                    v.push(x);
                    v
                },
                None => Vec::new(),
            },
            Answer::Failed => Vec::new(),
        }
    }

    pub fn is_failed(&self) -> (r: bool)
        ensures
            r == (*self is Failed),
    {
        match self {
            Answer::Failed => true,
            _ => false,
        }
    }
}

} // verus!
