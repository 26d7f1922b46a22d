//! The use cases: each one sequences the calls to the store, which decide
//! its outcome, and the notifications, which never do.

use vstd::prelude::*;
use crate::clock::{current_time, is_reading};
use crate::external_service::{NotificationService, NotificationView};
use crate::ident::{generate_id, is_random_uuid};
use crate::models::{
    clone_text, completes, spec_completes, views, BatchCreateRequest, BatchCreateResponse,
    CreateTodoRequest, DeleteCompletedResponse, Timestamp, Todo, TodoView, UpdateTodoRequest,
};
use crate::repository::{
    delete_outcome, get_outcome, list_outcome, storable, RepositoryError, TodoRepository,
};
use crate::store::{
    has_id, lookup, pending, store_insert, store_insert_all, store_replace, store_wf,
};

verus! {

/// What a create under `id` at time `now` owes. The item is stored where the
/// id is fresh, and then, and only then, its creation is announced; the
/// announcement's fate changes nothing.
pub open spec fn create_todo_spec(
    before: Seq<TodoView>,
    faultless: bool,
    attempts_before: Seq<NotificationView>,
    id: u128,
    input: CreateTodoRequest,
    now: Timestamp,
    after: Seq<TodoView>,
    attempts_after: Seq<NotificationView>,
    r: Result<Todo, RepositoryError>,
) -> bool {
    match r {
        Ok(created) => {
            &&& created@ == Todo::spec_new(id, input, now)
            &&& !has_id(before, id)
            &&& after == store_insert(before, created@)
            &&& attempts_after == attempts_before.push(
                (NotificationView::Created { todo_id: id, title: input.title@ }),
            )
        },
        Err(e) => {
            &&& after == before
            &&& attempts_after == attempts_before
            &&& if e.is_fault() {
                !faultless
            } else {
                e == RepositoryError::Conflict(id) && has_id(before, id)
            }
        },
    }
}

/// Creates an item under a given id at a given time.
pub fn create_todo_as<R: TodoRepository, N: NotificationService>(
    repo: &mut R,
    notifier: &mut N,
    id: u128,
    payload: CreateTodoRequest,
    now: Timestamp,
) -> (r: Result<Todo, RepositoryError>)
    ensures
        store_wf(old(repo).items()),
        store_wf(final(repo).items()),
        final(repo).faultless() == old(repo).faultless(),
        create_todo_spec(
            old(repo).items(),
            old(repo).faultless(),
            old(notifier).attempts(),
            id,
            payload,
            now,
            final(repo).items(),
            final(notifier).attempts(),
            r,
        ),
{
    let todo = Todo::new(id, payload, now);
    match repo.create(todo) {
        Ok(created) => {
            let _ = notifier.send_created_notification(created.id, created.title.as_str());
            Ok(created)
        },
        Err(e) => Err(e),
    }
}

/// Creates an item under a fresh random id, at the time the clock shows.
pub fn create_todo<R: TodoRepository, N: NotificationService>(
    repo: &mut R,
    notifier: &mut N,
    payload: CreateTodoRequest,
) -> (r: Result<Todo, RepositoryError>)
    ensures
        store_wf(old(repo).items()),
        store_wf(final(repo).items()),
        final(repo).faultless() == old(repo).faultless(),
        exists|id: u128, now: Timestamp|
            is_random_uuid(id) && is_reading(now) && #[trigger] create_todo_spec(
                old(repo).items(),
                old(repo).faultless(),
                old(notifier).attempts(),
                id,
                payload,
                now,
                final(repo).items(),
                final(notifier).attempts(),
                r,
            ),
{
    let id: u128 = generate_id();
    let now = current_time();
    create_todo_as(repo, notifier, id, payload, now)
}

/// Reads the item with this id.
pub fn get_todo<R: TodoRepository>(repo: &R, id: u128) -> (r: Result<Todo, RepositoryError>)
    ensures
        store_wf(repo.items()),
        get_outcome(repo.items(), repo.faultless(), id, r),
{
    repo.get(id)
}

/// Reads every item, newest first.
pub fn list_todos<R: TodoRepository>(repo: &R) -> (r: Result<Vec<Todo>, RepositoryError>)
    ensures
        store_wf(repo.items()),
        list_outcome(repo.items(), repo.faultless(), r),
{
    repo.list()
}

/// What an update of `id` at time `now` owes. The stored state is read
/// first; an unknown id ends the update there. Otherwise the fields that
/// `change` names are overwritten, the record is replaced, and, where that
/// took the item from not completed to completed, its completion is
/// announced once. A failure leaves the store and the announcements as
/// they were.
pub open spec fn update_todo_spec(
    before: Seq<TodoView>,
    faultless: bool,
    attempts_before: Seq<NotificationView>,
    id: u128,
    change: UpdateTodoRequest,
    now: Timestamp,
    after: Seq<TodoView>,
    attempts_after: Seq<NotificationView>,
    r: Result<Todo, RepositoryError>,
) -> bool {
    match r {
        Ok(updated) => {
            &&& lookup(before, id) is Some
            &&& updated@ == Todo::spec_apply(lookup(before, id)->0, change, now)
            &&& after == store_replace(before, updated@)
            &&& attempts_after == if spec_completes(
                lookup(before, id)->0.completed,
                updated.completed,
            ) {
                attempts_before.push(
                    (NotificationView::Completed { todo_id: id, title: updated@.title }),
                )
            } else {
                attempts_before
            }
        },
        Err(e) => {
            &&& after == before
            &&& attempts_after == attempts_before
            &&& if e.is_fault() {
                !faultless
            } else {
                e == RepositoryError::NotFound(id) && !has_id(before, id)
            }
        },
    }
}

/// Updates the item with this id at a given time.
pub fn update_todo_at<R: TodoRepository, N: NotificationService>(
    repo: &mut R,
    notifier: &mut N,
    id: u128,
    payload: UpdateTodoRequest,
    now: Timestamp,
) -> (r: Result<Todo, RepositoryError>)
    ensures
        store_wf(old(repo).items()),
        store_wf(final(repo).items()),
        final(repo).faultless() == old(repo).faultless(),
        update_todo_spec(
            old(repo).items(),
            old(repo).faultless(),
            old(notifier).attempts(),
            id,
            payload,
            now,
            final(repo).items(),
            final(notifier).attempts(),
            r,
        ),
{
    let existing = match repo.get(id) {
        Ok(found) => found,
        Err(e) => {
            return Err(e);
        },
    };
    let was_completed = existing.completed;
    let next = existing.apply(payload, now);
    let updated = match repo.update(next) {
        Ok(stored) => stored,
        Err(e) => {
            return Err(e);
        },
    };
    if completes(was_completed, updated.completed) {
        let _ = notifier.send_completed_notification(updated.id, updated.title.as_str());
    }
    Ok(updated)
}

/// Updates the item with this id at the time the clock shows.
pub fn update_todo<R: TodoRepository, N: NotificationService>(
    repo: &mut R,
    notifier: &mut N,
    id: u128,
    payload: UpdateTodoRequest,
) -> (r: Result<Todo, RepositoryError>)
    ensures
        store_wf(old(repo).items()),
        store_wf(final(repo).items()),
        final(repo).faultless() == old(repo).faultless(),
        exists|now: Timestamp|
            is_reading(now) && #[trigger] update_todo_spec(
                old(repo).items(),
                old(repo).faultless(),
                old(notifier).attempts(),
                id,
                payload,
                now,
                final(repo).items(),
                final(notifier).attempts(),
                r,
            ),
{
    let now = current_time();
    update_todo_at(repo, notifier, id, payload, now)
}

/// Removes the item with this id. Nothing is announced.
pub fn delete_todo<R: TodoRepository>(repo: &mut R, id: u128) -> (r: Result<(), RepositoryError>)
    ensures
        store_wf(old(repo).items()),
        store_wf(final(repo).items()),
        final(repo).faultless() == old(repo).faultless(),
        delete_outcome(old(repo).items(), old(repo).faultless(), id, final(repo).items(), r),
{
    repo.delete(id)
}

/// Removes every completed item and reports how many there were. Nothing is
/// announced.
pub fn delete_completed<R: TodoRepository>(repo: &mut R) -> (r: Result<
    DeleteCompletedResponse,
    RepositoryError,
>)
    ensures
        store_wf(old(repo).items()),
        store_wf(final(repo).items()),
        final(repo).faultless() == old(repo).faultless(),
        match r {
            Ok(response) => final(repo).items() == pending(old(repo).items())
                && response.deleted_count == old(repo).items().len() - final(repo).items().len(),
            Err(e) => final(repo).items() == old(repo).items() && e.is_fault() && !old(
                repo,
            ).faultless(),
        },
{
    match repo.delete_completed() {
        Ok(count) => Ok(DeleteCompletedResponse { deleted_count: count }),
        Err(e) => Err(e),
    }
}

/// Whether `failure` is one that can end a batch of `todos` after `k` items:
/// a fault of the storage, or a conflict over the id of the item that was
/// next.
pub open spec fn ends_batch(
    failure: RepositoryError,
    faultless: bool,
    todos: Seq<Todo>,
    k: int,
    after: Seq<TodoView>,
) -> bool {
    if failure.is_fault() {
        !faultless
    } else {
        failure == RepositoryError::Conflict(todos[k].id) && has_id(after, todos[k].id)
    }
}

/// What a batch create of `todos` owes. The response counts every item that
/// was asked for and lists those that were stored: a prefix of the input,
/// all of it unless a failure ended the batch. A batch that went through is
/// announced with its size; one that ended early is not, and the response
/// carries the text of the failure.
pub open spec fn batch_spec(
    before: Seq<TodoView>,
    faultless: bool,
    attempts_before: Seq<NotificationView>,
    todos: Seq<Todo>,
    after: Seq<TodoView>,
    attempts_after: Seq<NotificationView>,
    response: BatchCreateResponse,
) -> bool {
    let k: int = response.created@.len() as int;
    &&& response.total == todos.len()
    &&& k <= todos.len()
    &&& response.created@ == todos.take(k)
    &&& storable(before, views(todos), k)
    &&& after == store_insert_all(before, views(todos), k)
    &&& if k == todos.len() {
        &&& response.errors@.len() == 0
        &&& attempts_after == attempts_before.push(
            (NotificationView::BatchSummary { count: todos.len() as usize }),
        )
    } else {
        &&& response.errors@.len() == 1
        &&& attempts_after == attempts_before
        &&& exists|failure: RepositoryError| #[trigger]
            ends_batch(failure, faultless, todos, k, after) && response.errors@[0]@
                == failure.spec_message()
    }
}

/// Stores a batch of items that carry their ids and timestamps already.
pub fn submit_batch<R: TodoRepository, N: NotificationService>(
    repo: &mut R,
    notifier: &mut N,
    todos: Vec<Todo>,
) -> (response: BatchCreateResponse)
    ensures
        store_wf(old(repo).items()),
        store_wf(final(repo).items()),
        final(repo).faultless() == old(repo).faultless(),
        batch_spec(
            old(repo).items(),
            old(repo).faultless(),
            old(notifier).attempts(),
            todos@,
            final(repo).items(),
            final(notifier).attempts(),
            response,
        ),
{
    let total: usize = todos.len();
    let ghost wanted = todos@;
    match repo.create_batch(todos) {
        Ok(created) => {
            let _ = notifier.send_batch_summary(created.len());
            assert(wanted.take(wanted.len() as int) =~= wanted);
            BatchCreateResponse { created, total, errors: Vec::new() }
        },
        Err(failure) => {
            let mut errors: Vec<String> = Vec::new();
            errors.push(failure.error.message());
            assert(ends_batch(
                failure.error,
                old(repo).faultless(),
                wanted,
                failure.created@.len() as int,
                repo.items(),
            ));
            BatchCreateResponse { created: failure.created, total, errors }
        },
    }
}

/// Whether `todo` is what a create with `input` makes under a random id at
/// the time it carries.
pub open spec fn is_stamped(input: CreateTodoRequest, todo: Todo) -> bool {
    &&& is_random_uuid(todo.id)
    &&& is_reading(todo.created_at)
    &&& todo@ == Todo::spec_new(todo.id, input, todo.created_at)
}

/// Whether `todos` are the `inputs`, one for one and in order, each under a
/// random id and with a time of its own.
pub open spec fn stamped_from(inputs: Seq<CreateTodoRequest>, todos: Seq<Todo>) -> bool {
    &&& todos.len() == inputs.len()
    &&& forall|i: int| 0 <= i < inputs.len() ==> is_stamped(inputs[i], #[trigger] todos[i])
}

/// Gives every input of a batch a fresh random id and the time the clock
/// shows when its turn comes.
pub fn stamp_batch(inputs: &Vec<CreateTodoRequest>) -> (todos: Vec<Todo>)
    ensures
        stamped_from(inputs@, todos@),
{
    let mut todos: Vec<Todo> = Vec::new();
    let mut i: usize = 0;
    while i < inputs.len()
        invariant
            0 <= i <= inputs.len(),
            todos.len() == i,
            forall|j: int| 0 <= j < i ==> is_stamped(inputs[j], #[trigger] todos[j]),
        decreases inputs.len() - i,
    {
        let input = CreateTodoRequest {
            title: inputs[i].title.clone(),
            description: clone_text(&inputs[i].description),
        };
        let id: u128 = generate_id();
        let now = current_time();
        todos.push(Todo::new(id, input, now));
        i = i + 1;
    }
    todos
}

/// Creates a batch of items, each under a fresh random id and at the time
/// the clock shows for it.
pub fn create_batch<R: TodoRepository, N: NotificationService>(
    repo: &mut R,
    notifier: &mut N,
    payload: BatchCreateRequest,
) -> (response: BatchCreateResponse)
    ensures
        store_wf(old(repo).items()),
        store_wf(final(repo).items()),
        final(repo).faultless() == old(repo).faultless(),
        exists|todos: Seq<Todo>|
            stamped_from(payload.todos@, todos) && #[trigger] batch_spec(
                old(repo).items(),
                old(repo).faultless(),
                old(notifier).attempts(),
                todos,
                final(repo).items(),
                final(notifier).attempts(),
                response,
            ),
{
    let todos = stamp_batch(&payload.todos);
    submit_batch(repo, notifier, todos)
}

} // verus!
