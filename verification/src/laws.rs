//! What holds of the use cases and of the store, whatever the inputs.

use vstd::prelude::*;
use crate::external_service::NotificationView;
use crate::models::{
    spec_completes, CreateTodoRequest, Timestamp, Todo, TodoView, UpdateTodoRequest,
};
use crate::repository::{delete_outcome, get_outcome, storable, RepositoryError};
use crate::service::{create_todo_spec, update_todo_spec};
use crate::store::{
    has_id, lemma_position, lemma_store_insert, lemma_store_remove, lookup, newest_first,
    store_insert, store_insert_all, store_remove, store_wf,
};

verus! {

/// A create that succeeds returns an item whose id was not in the store and
/// now stands in it once, as the item that was returned; the item is not
/// completed, and its creation and its last change are the same moment.
pub proof fn lemma_created_id_is_unique(
    before: Seq<TodoView>,
    faultless: bool,
    attempts_before: Seq<NotificationView>,
    id: u128,
    input: CreateTodoRequest,
    now: Timestamp,
    after: Seq<TodoView>,
    attempts_after: Seq<NotificationView>,
    created: Todo,
)
    requires
        store_wf(before),
        create_todo_spec(
            before,
            faultless,
            attempts_before,
            id,
            input,
            now,
            after,
            attempts_after,
            Ok(created),
        ),
    ensures
        created.id == id,
        !created.completed,
        created.created_at == created.updated_at,
        !has_id(before, id),
        store_wf(after),
        after.len() == before.len() + 1,
        lookup(after, id) == Some(created@),
        forall|i: int| 0 <= i < after.len() && (#[trigger] after[i]).id == id ==> after[i] == created@,
{
    lemma_store_insert(before, created@);
    assert forall|i: int| 0 <= i < after.len() && (#[trigger] after[i]).id == id implies after[i]
        == created@ by {
        lemma_position(after, i);
    }
}

/// An update leaves the id and the creation time alone, leaves every field
/// that the change does not name as it was, gives every field that it names
/// the new value, and sets the last change to the time of the update.
pub proof fn lemma_update_keeps_omitted(item: TodoView, change: UpdateTodoRequest, now: Timestamp)
    ensures
        Todo::spec_apply(item, change, now).id == item.id,
        Todo::spec_apply(item, change, now).created_at == item.created_at,
        Todo::spec_apply(item, change, now).updated_at == now,
        change.title is None ==> Todo::spec_apply(item, change, now).title == item.title,
        change.description is None ==> Todo::spec_apply(item, change, now).description
            == item.description,
        change.completed is None ==> Todo::spec_apply(item, change, now).completed
            == item.completed,
        change.title matches Some(title) ==> Todo::spec_apply(item, change, now).title == title@,
        change.description matches Some(text) ==> Todo::spec_apply(item, change, now).description
            == Some(text@),
        change.completed matches Some(flag) ==> Todo::spec_apply(item, change, now).completed
            == flag,
{
}

/// Where the clock has not gone back since the item was last changed, an
/// update does not move the last change back, and an item that met the item
/// invariants meets them afterwards, provided the update names no empty
/// title.
pub proof fn lemma_update_advances(item: TodoView, change: UpdateTodoRequest, now: Timestamp)
    requires
        item.updated_at.spec_le(now),
    ensures
        item.updated_at.spec_le(Todo::spec_apply(item, change, now).updated_at),
        item.wf() && (change.title matches Some(title) ==> title@.len() > 0) ==> Todo::spec_apply(
            item,
            change,
            now,
        ).wf(),
{
}

/// An item as a create makes it meets the item invariants, provided its
/// title is not empty.
pub proof fn lemma_new_item_wf(id: u128, input: CreateTodoRequest, now: Timestamp)
    requires
        input.title@.len() > 0,
    ensures
        Todo::spec_new(id, input, now).wf(),
{
}

/// An update that takes an item from not completed to completed is announced
/// by exactly one attempt, the last one made; any other update, and any
/// update that fails, adds no attempt.
pub proof fn lemma_completion_announced_once(
    before: Seq<TodoView>,
    faultless: bool,
    attempts_before: Seq<NotificationView>,
    id: u128,
    change: UpdateTodoRequest,
    now: Timestamp,
    after: Seq<TodoView>,
    attempts_after: Seq<NotificationView>,
    r: Result<Todo, RepositoryError>,
)
    requires
        store_wf(before),
        update_todo_spec(
            before,
            faultless,
            attempts_before,
            id,
            change,
            now,
            after,
            attempts_after,
            r,
        ),
    ensures
        match r {
            Ok(updated) => if !(lookup(before, id)->0).completed && updated.completed {
                &&& attempts_after.len() == attempts_before.len() + 1
                &&& attempts_after.drop_last() == attempts_before
                &&& attempts_after.last() == (NotificationView::Completed {
                    todo_id: id,
                    title: updated@.title,
                })
            } else {
                attempts_after == attempts_before
            },
            Err(_) => attempts_after == attempts_before,
        },
{
    match r {
        Ok(updated) => {
            if spec_completes((lookup(before, id)->0).completed, updated.completed) {
                assert(attempts_after.drop_last() =~= attempts_before);
            }
        },
        Err(_) => {},
    }
}

/// Reading an id that is not stored fails, and with `NotFound` unless the
/// storage is at fault.
pub proof fn lemma_get_unknown_id(
    items: Seq<TodoView>,
    faultless: bool,
    id: u128,
    r: Result<Todo, RepositoryError>,
)
    requires
        !has_id(items, id),
        get_outcome(items, faultless, id, r),
    ensures
        r is Err,
        r == Err::<Todo, RepositoryError>(RepositoryError::NotFound(id)) || (r->Err_0.is_fault()
            && !faultless),
{
}

/// Updating an id that is not stored fails, with `NotFound` unless the
/// storage is at fault, and changes neither the store nor the attempts.
pub proof fn lemma_update_unknown_id(
    before: Seq<TodoView>,
    faultless: bool,
    attempts_before: Seq<NotificationView>,
    id: u128,
    change: UpdateTodoRequest,
    now: Timestamp,
    after: Seq<TodoView>,
    attempts_after: Seq<NotificationView>,
    r: Result<Todo, RepositoryError>,
)
    requires
        !has_id(before, id),
        update_todo_spec(
            before,
            faultless,
            attempts_before,
            id,
            change,
            now,
            after,
            attempts_after,
            r,
        ),
    ensures
        r is Err,
        r == Err::<Todo, RepositoryError>(RepositoryError::NotFound(id)) || (r->Err_0.is_fault()
            && !faultless),
        after == before,
        attempts_after == attempts_before,
{
}

/// Deleting an id that is not stored fails, with `NotFound` unless the
/// storage is at fault, and leaves the store as it was.
pub proof fn lemma_delete_unknown_id(
    before: Seq<TodoView>,
    faultless: bool,
    id: u128,
    after: Seq<TodoView>,
    r: Result<(), RepositoryError>,
)
    requires
        !has_id(before, id),
        delete_outcome(before, faultless, id, after, r),
    ensures
        r is Err,
        r == Err::<(), RepositoryError>(RepositoryError::NotFound(id)) || (r->Err_0.is_fault()
            && !faultless),
        after == before,
{
}

/// After a delete that succeeded the id is not stored any more, so a read,
/// an update or a delete of it is one of an unknown id; every other id is
/// as it was.
pub proof fn lemma_deleted_id_is_unknown(
    before: Seq<TodoView>,
    faultless: bool,
    id: u128,
    after: Seq<TodoView>,
)
    requires
        store_wf(before),
        delete_outcome(before, faultless, id, after, Ok(())),
    ensures
        store_wf(after),
        !has_id(after, id),
        after.len() == before.len() - 1,
        forall|other: u128| other != id ==> lookup(after, other) == lookup(before, other),
{
    lemma_store_remove(before, id);
}

/// A write to a store: a create of an item or a delete of an id.
pub enum StoreOp {
    Create(TodoView),
    Delete(u128),
}

/// Whether the write succeeds on this listing: a create needs a fresh id, a
/// delete a stored one.
pub open spec fn op_succeeds(s: Seq<TodoView>, op: StoreOp) -> bool {
    match op {
        StoreOp::Create(item) => !has_id(s, item.id),
        StoreOp::Delete(id) => has_id(s, id),
    }
}

/// The listing after the write; a write that fails changes nothing.
pub open spec fn apply_op(s: Seq<TodoView>, op: StoreOp) -> Seq<TodoView> {
    match op {
        StoreOp::Create(item) => if has_id(s, item.id) {
            s
        } else {
            store_insert(s, item)
        },
        StoreOp::Delete(id) => store_remove(s, id),
    }
}

/// The listing after the writes, made in order.
pub open spec fn run(s: Seq<TodoView>, ops: Seq<StoreOp>) -> Seq<TodoView>
    decreases ops.len(),
{
    if ops.len() == 0 {
        s
    } else {
        apply_op(run(s, ops.drop_last()), ops.last())
    }
}

/// How many of the writes, made in order, are creates that succeed.
pub open spec fn creates_done(s: Seq<TodoView>, ops: Seq<StoreOp>) -> nat
    decreases ops.len(),
{
    if ops.len() == 0 {
        0
    } else {
        let earlier: nat = creates_done(s, ops.drop_last());
        if ops.last() is Create && op_succeeds(run(s, ops.drop_last()), ops.last()) {
            earlier + 1
        } else {
            earlier
        }
    }
}

/// How many of the writes, made in order, are deletes that succeed.
pub open spec fn deletes_done(s: Seq<TodoView>, ops: Seq<StoreOp>) -> nat
    decreases ops.len(),
{
    if ops.len() == 0 {
        0
    } else {
        let earlier: nat = deletes_done(s, ops.drop_last());
        if ops.last() is Delete && op_succeeds(run(s, ops.drop_last()), ops.last()) {
            earlier + 1
        } else {
            earlier
        }
    }
}

/// After any creates and deletes the listing is ordered newest first, holds
/// no id twice, and has grown by the creates that succeeded less the deletes
/// that succeeded: from an empty store, N creates and M deletes leave N - M
/// items.
pub proof fn lemma_listing_after_writes(s: Seq<TodoView>, ops: Seq<StoreOp>)
    requires
        store_wf(s),
    ensures
        store_wf(run(s, ops)),
        newest_first(run(s, ops)),
        run(s, ops).len() == s.len() + creates_done(s, ops) - deletes_done(s, ops),
    decreases ops.len(),
{
    if ops.len() > 0 {
        let earlier = ops.drop_last();
        lemma_listing_after_writes(s, earlier);
        let mid = run(s, earlier);
        match ops.last() {
            StoreOp::Create(item) => {
                if !has_id(mid, item.id) {
                    lemma_store_insert(mid, item);
                }
            },
            StoreOp::Delete(id) => {
                if has_id(mid, id) {
                    lemma_store_remove(mid, id);
                }
            },
        }
    }
}

/// The first `k` items of a batch that could be stored one after another
/// are all in the store afterwards, each retrievable under its id as it was
/// given, beside everything that was stored before.
pub proof fn lemma_batch_prefix_retrievable(before: Seq<TodoView>, todos: Seq<TodoView>, k: int)
    requires
        store_wf(before),
        0 <= k <= todos.len(),
        storable(before, todos, k),
    ensures
        store_wf(store_insert_all(before, todos, k)),
        store_insert_all(before, todos, k).len() == before.len() + k,
        forall|j: int|
            0 <= j < k ==> lookup(store_insert_all(before, todos, k), (#[trigger] todos[j]).id)
                == Some(todos[j]),
        forall|id: u128|
            has_id(before, id) ==> #[trigger] lookup(store_insert_all(before, todos, k), id)
                == lookup(before, id),
    decreases k,
{
    if k > 0 {
        assert(storable(before, todos, k - 1));
        lemma_batch_prefix_retrievable(before, todos, k - 1);
        let mid = store_insert_all(before, todos, k - 1);
        let item = todos[k - 1];
        assert(!has_id(mid, item.id));
        lemma_store_insert(mid, item);
        let after = store_insert_all(before, todos, k);
        assert(after == store_insert(mid, item));
        assert forall|j: int| 0 <= j < k implies lookup(after, (#[trigger] todos[j]).id) == Some(
            todos[j],
        ) by {
            if j < k - 1 {
                assert(lookup(mid, todos[j].id) == Some(todos[j]));
                assert(has_id(mid, todos[j].id));
            }
        }
        assert forall|id: u128| has_id(before, id) implies #[trigger] lookup(after, id) == lookup(
            before,
            id,
        ) by {
            assert(lookup(mid, id) == lookup(before, id));
            assert(has_id(mid, id));
        }
    }
}

/// Whether a create succeeds is the store's affair alone: on a store that
/// cannot fail and under a fresh id it does, whatever became of the
/// notification.
pub proof fn lemma_create_succeeds(
    before: Seq<TodoView>,
    attempts_before: Seq<NotificationView>,
    id: u128,
    input: CreateTodoRequest,
    now: Timestamp,
    after: Seq<TodoView>,
    attempts_after: Seq<NotificationView>,
    r: Result<Todo, RepositoryError>,
)
    requires
        !has_id(before, id),
        create_todo_spec(before, true, attempts_before, id, input, now, after, attempts_after, r),
    ensures
        r is Ok,
{
}

/// Whether an update succeeds is the store's affair alone: on a store that
/// cannot fail and for a stored id it does, whatever became of the
/// notification.
pub proof fn lemma_update_succeeds(
    before: Seq<TodoView>,
    attempts_before: Seq<NotificationView>,
    id: u128,
    change: UpdateTodoRequest,
    now: Timestamp,
    after: Seq<TodoView>,
    attempts_after: Seq<NotificationView>,
    r: Result<Todo, RepositoryError>,
)
    requires
        has_id(before, id),
        update_todo_spec(before, true, attempts_before, id, change, now, after, attempts_after, r),
    ensures
        r is Ok,
{
}

} // verus!
