//! What holds of the request protocols over a store that answers as
//! `answer_at` and `answers_query` say.
use vstd::prelude::*;

use crate::clock::Timestamp;
use crate::flow::{checking_step, common_step, missing, respond, Flow, NextView};
use crate::model::{Todo, UpdateTodo, UpdateUser, User};
use crate::reply::{payload_count, Message, PayloadView, BAD_REQUEST, NO_CONTENT, OK};
use crate::store::{answer_at, answers_query, Answer, Field, StoreCall, Table};
use crate::todos::todo_step;
use crate::users::user_step;

verus! {

/// A record that a create stored under `id` is what a delete of `id` then
/// returns, and after that delete a read of `id` finds nothing.
pub proof fn lemma_delete_returns_created<T, P>(
    table: Table,
    rows: Map<Seq<char>, T>,
    id: String,
    created: T,
)
    ensures
        ({
            let stored = rows.insert(id@, created);
            let after = stored.remove(id@);
            &&& common_step::<T, P>(table, Flow::Confirming { id }, answer_at(stored, id@))
                == (NextView::Call {
                flow: Flow::<T, P>::Deleting { id },
                call: StoreCall::<T>::Delete { table, id },
            })
            &&& common_step::<T, P>(table, Flow::Deleting { id }, answer_at(stored, id@))
                == respond::<T, P>(
                NO_CONTENT,
                Some(Message::Deleted { table }),
                PayloadView::One(created),
            )
            &&& common_step::<T, P>(
                table,
                Flow::Fetching { field: Field::Id, value: id },
                answer_at(after, id@),
            ) == missing::<T, P>(table, Field::Id, id)
        }),
{
    let stored = rows.insert(id@, created);
    assert(stored.contains_key(id@));
    assert(!stored.remove(id@).contains_key(id@));
}

/// A delete of a key that the table no longer holds, because it was deleted
/// before, ends in not found, however often it is repeated.
pub proof fn lemma_delete_again_not_found<T, P>(table: Table, rows: Map<Seq<char>, T>, id: String)
    ensures
        ({
            let after = rows.remove(id@);
            &&& common_step::<T, P>(table, Flow::Confirming { id }, answer_at(after, id@))
                == missing::<T, P>(table, Field::Id, id)
            &&& common_step::<T, P>(table, Flow::Deleting { id }, answer_at(after, id@))
                == missing::<T, P>(table, Field::Id, id)
        }),
{
    assert(!rows.remove(id@).contains_key(id@));
}

/// Listing a table that holds no record replies with success, an empty
/// sequence and a count of zero.
pub proof fn lemma_empty_listing<T, P>(table: Table, answer: Answer<T>)
    requires
        answer matches Answer::Rows(v) && v@.len() == 0,
    ensures
        common_step::<T, P>(table, Flow::Listing, answer) == respond::<T, P>(
            OK,
            None,
            PayloadView::Many(Seq::empty()),
        ),
        payload_count(PayloadView::<T>::Many(Seq::empty())) == 0,
{
    if let Answer::Rows(v) = answer {
        assert(v@ =~= Seq::<T>::empty());
    }
}

/// Two creates with the same unique value: the first, on a table where no
/// record holds the value, writes its record; the second is refused with a
/// conflict that carries the stored record, and writes nothing, so that the
/// table holds exactly one record with that value.
pub proof fn lemma_duplicate_refused<T, P>(
    table: Table,
    rows: Map<Seq<char>, T>,
    unique: spec_fn(T) -> Seq<char>,
    value: Seq<char>,
    first: T,
    first_answer: Answer<T>,
    key: Seq<char>,
    second: T,
    second_answer: Answer<T>,
)
    requires
        forall|k: Seq<char>| rows.contains_key(k) ==> unique(#[trigger] rows[k]) != value,
        unique(first) == value,
        !rows.contains_key(key),
        answers_query(rows, unique, value, first_answer),
        answers_query(rows.insert(key, first), unique, value, second_answer),
    ensures
        checking_step::<T, P>(table, first_answer, first) == (NextView::Call {
            flow: Flow::<T, P>::Creating,
            call: StoreCall::Create { table, content: first },
        }),
        checking_step::<T, P>(table, second_answer, second) == respond::<T, P>(
            BAD_REQUEST,
            Some(Message::AlreadyExists { table }),
            PayloadView::One(first),
        ),
        rows.insert(key, first).dom().filter(
            |k: Seq<char>| unique(rows.insert(key, first)[k]) == value,
        ) == set![key],
{
    let stored = rows.insert(key, first);
    if let Answer::Rows(v) = first_answer {
        if v@.len() > 0 {
            assert(unique(v@[0]) == value && rows.values().contains(v@[0]));
            let k = choose|k: Seq<char>| rows.contains_key(k) && rows[k] == v@[0];
            assert(unique(rows[k]) != value);
        }
    }
    if let Answer::Rows(v) = second_answer {
        assert(stored.contains_key(key) && unique(stored[key]) == value);
        assert(v@.contains(stored[key]));
        assert(v@.len() > 0);
        assert(stored.values().contains(v@[0]));
        let k = choose|k: Seq<char>| stored.contains_key(k) && stored[k] == v@[0];
        if k != key {
            assert(rows.contains_key(k) && rows[k] == stored[k]);
        }
        assert(v@[0] == first);
    }
    let held = stored.dom().filter(|k: Seq<char>| unique(stored[k]) == value);
    assert forall|k: Seq<char>| held.contains(k) <==> set![key].contains(k) by {
        if k != key && stored.contains_key(k) {
            assert(rows.contains_key(k) && stored[k] == rows[k]);
        }
    }
    assert(held =~= set![key]);
}

/// The fields that two todo patches give are disjoint.
pub open spec fn disjoint_todo_patches(p: UpdateTodo, q: UpdateTodo) -> bool {
    &&& !(p.title is Some && q.title is Some)
    &&& !(p.content is Some && q.content is Some)
    &&& !(p.completed is Some && q.completed is Some)
}

/// Two updates of a todo with disjoint patches, the second at a time not
/// earlier than the first: each writes the record that it read with its
/// patch merged in, the end result holds the fields of both patches and
/// the others unchanged, and its update time is the later one.
pub proof fn lemma_todo_updates_compose(
    id: String,
    original: Todo,
    first: UpdateTodo,
    second: UpdateTodo,
    t1: Timestamp,
    t2: Timestamp,
)
    requires
        disjoint_todo_patches(first, second),
        t2.not_before(t1),
    ensures
        ({
            let once = original.merged_spec(first, t1);
            let twice = once.merged_spec(second, t2);
            &&& todo_step(Flow::Reading { id, patch: first }, Answer::Row(Some(original)), t1)
                == (NextView::Call {
                flow: Flow::<Todo, UpdateTodo>::Updating,
                call: StoreCall::Update { table: Table::Todo, id, content: once },
            })
            &&& todo_step(Flow::Reading { id, patch: second }, Answer::Row(Some(once)), t2)
                == (NextView::Call {
                flow: Flow::<Todo, UpdateTodo>::Updating,
                call: StoreCall::Update { table: Table::Todo, id, content: twice },
            })
            &&& (first.title matches Some(v) ==> twice.title == v)
            &&& (second.title matches Some(v) ==> twice.title == v)
            &&& (first.title is None && second.title is None ==> twice.title == original.title)
            &&& (first.content is Some ==> twice.content == first.content)
            &&& (second.content is Some ==> twice.content == second.content)
            &&& (first.content is None && second.content is None ==> twice.content
                == original.content)
            &&& (first.completed is Some ==> twice.completed == first.completed)
            &&& (second.completed is Some ==> twice.completed == second.completed)
            &&& (first.completed is None && second.completed is None ==> twice.completed
                == original.completed)
            &&& twice.id == original.id
            &&& twice.created_at == original.created_at
            &&& once.updated_at == Some(t1)
            &&& twice.updated_at == Some(t2)
            &&& t2.not_before(t1)
        }),
{
}

/// The fields that two user patches give, beyond name and email which every
/// update sets, are disjoint.
pub open spec fn disjoint_user_patches(p: UpdateUser, q: UpdateUser) -> bool {
    &&& !(p.phone is Some && q.phone is Some)
    &&& !(p.role is Some && q.role is Some)
}

/// Two updates of a user with disjoint optional fields, the second at a time
/// not earlier than the first: the end result holds the optional fields of
/// both patches, the name and email of the second, and the later update time.
pub proof fn lemma_user_updates_compose(
    id: String,
    original: User,
    first: UpdateUser,
    second: UpdateUser,
    t1: Timestamp,
    t2: Timestamp,
)
    requires
        disjoint_user_patches(first, second),
        t2.not_before(t1),
    ensures
        ({
            let once = original.merged_spec(first, t1);
            let twice = once.merged_spec(second, t2);
            &&& user_step(Flow::Reading { id, patch: first }, Answer::Row(Some(original)), t1)
                == (NextView::Call {
                flow: Flow::<User, UpdateUser>::Updating,
                call: StoreCall::Update { table: Table::User, id, content: once },
            })
            &&& user_step(Flow::Reading { id, patch: second }, Answer::Row(Some(once)), t2)
                == (NextView::Call {
                flow: Flow::<User, UpdateUser>::Updating,
                call: StoreCall::Update { table: Table::User, id, content: twice },
            })
            &&& twice.name == second.name
            &&& twice.email == second.email
            &&& (first.phone is Some ==> twice.phone == first.phone)
            &&& (second.phone is Some ==> twice.phone == second.phone)
            &&& (first.phone is None && second.phone is None ==> twice.phone == original.phone)
            &&& (first.role is Some ==> twice.role == first.role)
            &&& (second.role is Some ==> twice.role == second.role)
            &&& (first.role is None && second.role is None ==> twice.role == original.role)
            &&& twice.id == original.id
            &&& twice.created_at == original.created_at
            &&& once.updated_at == Some(t1)
            &&& twice.updated_at == Some(t2)
            &&& t2.not_before(t1)
        }),
{
}

} // verus!
