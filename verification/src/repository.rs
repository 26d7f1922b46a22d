//! The storage contract for items, its errors, and a store that keeps the
//! items in memory.

use vstd::prelude::*;
use vstd::string::*;
use crate::ident::{format_uuid, uuid_text};
use crate::models::{views, Timestamp, Todo, TodoView};
use crate::store::{
    has_id, lemma_pending, lemma_pending_push, lemma_position, lemma_slot_unique,
    lemma_store_insert, lemma_store_remove, lookup, pending, position, slot_for, store_insert,
    store_insert_all, store_remove, store_replace, store_wf,
};

verus! {

/// Why a store did not do what it was asked.
#[derive(Debug, PartialEq, Eq)]
pub enum RepositoryError {
    /// A fault of the storage underneath, with what is known of it.
    Database(String),
    /// No item has this id.
    NotFound(u128),
    /// A stored record that cannot be read as an item.
    InvalidData(String),
    /// An item with this id is stored already.
    Conflict(u128),
}

impl RepositoryError {
    /// Whether the error is a fault of the storage, not an answer about the
    /// items in it.
    pub open spec fn is_fault(self) -> bool {
        self is Database || self is InvalidData
    }

    /// The text of the error.
    pub open spec fn spec_message(self) -> Seq<char> {
        match self {
            RepositoryError::Database(detail) => "Database error: "@ + detail@,
            RepositoryError::NotFound(id) => "Todo not found: "@ + uuid_text(id),
            RepositoryError::InvalidData(detail) => "Invalid data: "@ + detail@,
            RepositoryError::Conflict(id) => "Todo already exists: "@ + uuid_text(id),
        }
    }

    /// Writes the error as text.
    pub fn message(&self) -> (text: String)
        ensures
            text@ == self.spec_message(),
    {
        match self {
            RepositoryError::Database(detail) => String::from_str("Database error: ").concat(
                detail.as_str(),
            ),
            RepositoryError::NotFound(id) => String::from_str("Todo not found: ").concat(
                format_uuid(*id).as_str(),
            ),
            RepositoryError::InvalidData(detail) => String::from_str("Invalid data: ").concat(
                detail.as_str(),
            ),
            RepositoryError::Conflict(id) => String::from_str("Todo already exists: ").concat(
                format_uuid(*id).as_str(),
            ),
        }
    }

    /// The text of a storage fault: the operation that met it, the id that
    /// the operation was about, where it was about one, and the storage's
    /// own words.
    pub open spec fn spec_fault_text(
        operation: Seq<char>,
        id: Option<u128>,
        words: Seq<char>,
    ) -> Seq<char> {
        match id {
            Some(id) => operation + " "@ + uuid_text(id) + ": "@ + words,
            None => operation + ": "@ + words,
        }
    }

    /// Makes the error of a storage fault, with what is needed to trace it.
    pub fn fault(operation: &str, id: Option<u128>, words: &str) -> (e: RepositoryError)
        ensures
            e matches RepositoryError::Database(text) && text@
                == RepositoryError::spec_fault_text(operation@, id, words@),
    {
        let text = match id {
            Some(id) => String::from_str(operation).concat(" ").concat(
                format_uuid(id).as_str(),
            ).concat(": ").concat(words),
            None => String::from_str(operation).concat(": ").concat(words),
        };
        RepositoryError::Database(text)
    }

    /// The status that a transport reports for the error: 404 for an unknown
    /// id, 500 for everything else.
    pub open spec fn spec_status_code(self) -> u16 {
        if self is NotFound {
            404
        } else {
            500
        }
    }

    /// The status that a transport reports for the error.
    pub fn status_code(&self) -> (code: u16)
        ensures
            code == self.spec_status_code(),
    {
        match self {
            RepositoryError::NotFound(_) => 404,
            _ => 500,
        }
    }
}

/// A batch that ended early: the items that were stored before the failure,
/// in input order, and the failure.
#[derive(Debug)]
pub struct BatchFailure {
    pub created: Vec<Todo>,
    pub error: RepositoryError,
}

/// Whether the first `n` of `items` can be stored one after another: none of
/// them meets its id in the store as the items before it left it.
pub open spec fn storable(s: Seq<TodoView>, items: Seq<TodoView>, n: int) -> bool {
    forall|j: int| 0 <= j < n ==> !has_id(#[trigger] store_insert_all(s, items, j), items[j].id)
}

/// What `create` owes: the item is stored and handed back unchanged where its
/// id is fresh; a taken id is a conflict; a fault leaves the store as it was.
pub open spec fn create_outcome(
    before: Seq<TodoView>,
    faultless: bool,
    todo: Todo,
    after: Seq<TodoView>,
    r: Result<Todo, RepositoryError>,
) -> bool {
    match r {
        Ok(stored) => stored == todo && !has_id(before, todo.id) && after == store_insert(
            before,
            todo@,
        ),
        Err(e) => after == before && if e.is_fault() {
            !faultless
        } else {
            e == RepositoryError::Conflict(todo.id) && has_id(before, todo.id)
        },
    }
}

/// What `get` owes: the stored state of the id, or `NotFound` with the id
/// where nothing is stored under it.
pub open spec fn get_outcome(
    items: Seq<TodoView>,
    faultless: bool,
    id: u128,
    r: Result<Todo, RepositoryError>,
) -> bool {
    match r {
        Ok(found) => lookup(items, id) == Some(found@),
        Err(e) => if e.is_fault() {
            !faultless
        } else {
            e == RepositoryError::NotFound(id) && !has_id(items, id)
        },
    }
}

/// What `list` owes: every item, newest first.
pub open spec fn list_outcome(
    items: Seq<TodoView>,
    faultless: bool,
    r: Result<Vec<Todo>, RepositoryError>,
) -> bool {
    match r {
        Ok(listed) => views(listed@) == items,
        Err(e) => e.is_fault() && !faultless,
    }
}

/// What `update` owes: the record of the id is overwritten with the item,
/// which is handed back unchanged, or `NotFound` with the id where nothing
/// is stored under it.
pub open spec fn update_outcome(
    before: Seq<TodoView>,
    faultless: bool,
    todo: Todo,
    after: Seq<TodoView>,
    r: Result<Todo, RepositoryError>,
) -> bool {
    match r {
        Ok(stored) => stored == todo && has_id(before, todo.id) && after == store_replace(
            before,
            todo@,
        ),
        Err(e) => after == before && if e.is_fault() {
            !faultless
        } else {
            e == RepositoryError::NotFound(todo.id) && !has_id(before, todo.id)
        },
    }
}

/// What `delete` owes: the record of the id is removed, or `NotFound` with
/// the id where nothing is stored under it.
pub open spec fn delete_outcome(
    before: Seq<TodoView>,
    faultless: bool,
    id: u128,
    after: Seq<TodoView>,
    r: Result<(), RepositoryError>,
) -> bool {
    match r {
        Ok(_) => has_id(before, id) && after == store_remove(before, id),
        Err(e) => after == before && if e.is_fault() {
            !faultless
        } else {
            e == RepositoryError::NotFound(id) && !has_id(before, id)
        },
    }
}

/// What `create_batch` owes: the items are stored one at a time, in input
/// order; the first that fails ends the batch, and those before it stay.
pub open spec fn create_batch_outcome(
    before: Seq<TodoView>,
    faultless: bool,
    todos: Seq<Todo>,
    after: Seq<TodoView>,
    r: Result<Vec<Todo>, BatchFailure>,
) -> bool {
    match r {
        Ok(created) => {
            &&& created@ == todos
            &&& storable(before, views(todos), todos.len() as int)
            &&& after == store_insert_all(before, views(todos), todos.len() as int)
        },
        Err(failure) => {
            let k: int = failure.created@.len() as int;
            &&& k < todos.len()
            &&& failure.created@ == todos.take(k)
            &&& storable(before, views(todos), k)
            &&& after == store_insert_all(before, views(todos), k)
            &&& if failure.error.is_fault() {
                !faultless
            } else {
                &&& failure.error == RepositoryError::Conflict(todos[k].id)
                &&& has_id(after, todos[k].id)
            }
        },
    }
}

/// What `delete_completed` owes: exactly the completed items are removed,
/// and their number is returned.
pub open spec fn delete_completed_outcome(
    before: Seq<TodoView>,
    faultless: bool,
    after: Seq<TodoView>,
    r: Result<usize, RepositoryError>,
) -> bool {
    match r {
        Ok(count) => after == pending(before) && count == before.len() - after.len(),
        Err(e) => after == before && e.is_fault() && !faultless,
    }
}

/// The listing of a store, as its contract speaks of it.
pub type Listing = Seq<TodoView>;

/// Durable storage for items, addressed by id.
///
/// A store keeps what it is given: it makes no id and no timestamp. Its
/// state is its listing, `items()`, which at all times is ordered newest
/// first and holds no id twice: every operation says so of the listing it
/// found and of the one it left.
/// A store that is `faultless()` never fails but with `NotFound` or
/// `Conflict`; any other may also fail with `Database` or `InvalidData` and
/// then leaves its items as they were.
pub trait TodoRepository {
    /// The stored items, newest first.
    spec fn items(&self) -> Listing;

    /// Whether the storage underneath cannot fail.
    spec fn faultless(&self) -> bool;

    /// Stores a new item.
    fn create(&mut self, todo: Todo) -> (r: Result<Todo, RepositoryError>)
        ensures
            store_wf(old(self).items()),
            store_wf(final(self).items()),
            final(self).faultless() == old(self).faultless(),
            create_outcome(old(self).items(), old(self).faultless(), todo, final(self).items(), r),
    ;

    /// Reads the item with this id.
    fn get(&self, id: u128) -> (r: Result<Todo, RepositoryError>)
        ensures
            store_wf(self.items()),
            get_outcome(self.items(), self.faultless(), id, r),
    ;

    /// Reads every item, newest first.
    fn list(&self) -> (r: Result<Vec<Todo>, RepositoryError>)
        ensures
            store_wf(self.items()),
            list_outcome(self.items(), self.faultless(), r),
    ;

    /// Overwrites the record of `todo.id` with `todo`.
    fn update(&mut self, todo: Todo) -> (r: Result<Todo, RepositoryError>)
        ensures
            store_wf(old(self).items()),
            store_wf(final(self).items()),
            final(self).faultless() == old(self).faultless(),
            update_outcome(old(self).items(), old(self).faultless(), todo, final(self).items(), r),
    ;

    /// Removes the item with this id.
    fn delete(&mut self, id: u128) -> (r: Result<(), RepositoryError>)
        ensures
            store_wf(old(self).items()),
            store_wf(final(self).items()),
            final(self).faultless() == old(self).faultless(),
            delete_outcome(old(self).items(), old(self).faultless(), id, final(self).items(), r),
    ;

    /// Stores the items one at a time, in input order, and stops at the first
    /// that fails.
    fn create_batch(&mut self, todos: Vec<Todo>) -> (r: Result<Vec<Todo>, BatchFailure>)
        ensures
            store_wf(old(self).items()),
            store_wf(final(self).items()),
            final(self).faultless() == old(self).faultless(),
            create_batch_outcome(
                old(self).items(),
                old(self).faultless(),
                todos@,
                final(self).items(),
                r,
            ),
    ;

    /// Removes every completed item and returns how many there were.
    fn delete_completed(&mut self) -> (r: Result<usize, RepositoryError>)
        ensures
            store_wf(old(self).items()),
            store_wf(final(self).items()),
            final(self).faultless() == old(self).faultless(),
            delete_completed_outcome(
                old(self).items(),
                old(self).faultless(),
                final(self).items(),
                r,
            ),
    ;
}

/// An id is in the listing of a sequence of items exactly where one of the
/// items carries it.
pub proof fn lemma_views_has_id(items: Seq<Todo>, id: u128)
    ensures
        has_id(views(items), id) <==> exists|j: int| 0 <= j < items.len() && (#[trigger] items[j]).id == id,
{
    if has_id(views(items), id) {
        let j: int = choose|j: int| 0 <= j < views(items).len() && (#[trigger] views(items)[j]).id == id;
        assert(items[j].id == id);
    }
    if exists|j: int| 0 <= j < items.len() && (#[trigger] items[j]).id == id {
        let j: int = choose|j: int| 0 <= j < items.len() && (#[trigger] items[j]).id == id;
        assert(views(items)[j].id == id);
    }
}

/// Stores the items through `create`, one at a time and in input order, and
/// stops at the first that fails: the items before it stay stored and are
/// handed back with the failure. This is `create_batch` for a store that
/// has no way of its own to take a batch.
pub fn create_each<R: TodoRepository>(repo: &mut R, todos: Vec<Todo>) -> (r: Result<
    Vec<Todo>,
    BatchFailure,
>)
    ensures
        todos@.len() > 0 ==> store_wf(old(repo).items()),
        store_wf(old(repo).items()) ==> store_wf(final(repo).items()),
        final(repo).faultless() == old(repo).faultless(),
        create_batch_outcome(old(repo).items(), old(repo).faultless(), todos@, final(repo).items(), r),
{
    let ghost before = repo.items();
    let ghost wanted = views(todos@);
    let mut created: Vec<Todo> = Vec::new();
    let mut i: usize = 0;
    while i < todos.len()
        invariant
            0 <= i <= todos.len(),
            wanted == views(todos@),
            before == old(repo).items(),
            i > 0 ==> store_wf(before),
            store_wf(before) ==> store_wf(repo.items()),
            repo.faultless() == old(repo).faultless(),
            created@ == todos@.take(i as int),
            repo.items() == store_insert_all(before, wanted, i as int),
            storable(before, wanted, i as int),
        decreases todos.len() - i,
    {
        let todo = todos[i].clone();
        match repo.create(todo) {
            Ok(stored) => {
                created.push(stored);
                assert(created@ =~= todos@.take(i + 1));
                assert(wanted[i as int] == todos[i as int]@);
                i = i + 1;
            },
            Err(error) => {
                return Err(BatchFailure { created, error });
            },
        }
    }
    assert(todos@.take(i as int) =~= todos@);
    Ok(created)
}

/// A store that keeps its items in memory, newest first. It cannot fail but
/// with `NotFound` or `Conflict`.
#[derive(Debug)]
pub struct MemoryTodoRepository {
    todos: Vec<Todo>,
}

impl MemoryTodoRepository {
    /// No id is stored twice, and the items are ordered newest first.
    #[verifier::type_invariant]
    spec fn inv(self) -> bool {
        store_wf(views(self.todos@))
    }

    /// An empty store.
    pub fn new() -> (repo: MemoryTodoRepository)
        ensures
            repo.items() == Seq::<TodoView>::empty(),
            repo.faultless(),
    {
        let todos: Vec<Todo> = Vec::new();
        assert(views(todos@) =~= Seq::<TodoView>::empty());
        MemoryTodoRepository { todos }
    }

    /// How many items are stored.
    pub fn len(&self) -> (n: usize)
        ensures
            n == self.items().len(),
    {
        self.todos.len()
    }

    /// The place of the item with this id, where one is stored.
    fn find(&self, id: u128) -> (place: Option<usize>)
        ensures
            store_wf(self.items()),
            match place {
                Some(i) => i < self.todos.len() && self.todos[i as int].id == id && has_id(
                    self.items(),
                    id,
                ) && position(self.items(), id) == i,
                None => !has_id(self.items(), id),
            },
    {
        proof {
            use_type_invariant(self);
            lemma_views_has_id(self.todos@, id);
        }
        let mut i: usize = 0;
        while i < self.todos.len()
            invariant
                0 <= i <= self.todos.len(),
                store_wf(self.items()),
                has_id(self.items(), id) <==> exists|j: int|
                    0 <= j < self.todos.len() && (#[trigger] self.todos[j]).id == id,
                forall|j: int| 0 <= j < i ==> (#[trigger] self.todos[j]).id != id,
            decreases self.todos.len() - i,
        {
            if self.todos[i].id == id {
                proof {
                    lemma_position(self.items(), i as int);
                }
                return Some(i);
            }
            i = i + 1;
        }
        None
    }

    /// The place at which an item created at `t` enters the listing.
    fn slot(&self, t: Timestamp) -> (place: usize)
        ensures
            place == slot_for(self.items(), t),
            place <= self.todos.len(),
    {
        let mut i: usize = 0;
        while i < self.todos.len() && !self.todos[i].created_at.le(&t)
            invariant
                0 <= i <= self.todos.len(),
                forall|j: int| 0 <= j < i ==> !(#[trigger] self.items()[j]).created_at.spec_le(t),
            decreases self.todos.len() - i,
        {
            i = i + 1;
        }
        proof {
            lemma_slot_unique(self.items(), t, i as int);
        }
        i
    }

    /// Puts `todo`, whose id is not stored, at its place in the listing.
    fn place(&mut self, todo: Todo)
        requires
            !has_id(old(self).items(), todo.id),
        ensures
            final(self).items() == store_insert(old(self).items(), todo@),
    {
        let place = self.slot(todo.created_at);
        proof {
            use_type_invariant(&*self);
            lemma_store_insert(self.items(), todo@);
            assert(views(self.todos@.insert(place as int, todo)) =~= store_insert(
                self.items(),
                todo@,
            ));
        }
        let mut todos: Vec<Todo> = Vec::new();
        core::mem::swap(&mut self.todos, &mut todos);
        todos.insert(place, todo);
        self.todos = todos;
    }

    /// Takes the item at place `i` out of the listing.
    fn take_out(&mut self, i: usize)
        requires
            i < old(self).items().len(),
        ensures
            final(self).items() == store_remove(old(self).items(), old(self).items()[i as int].id),
    {
        proof {
            use_type_invariant(&*self);
            lemma_position(self.items(), i as int);
            lemma_store_remove(self.items(), self.items()[i as int].id);
            assert(views(self.todos@.remove(i as int)) =~= store_remove(
                self.items(),
                self.items()[i as int].id,
            ));
        }
        let mut todos: Vec<Todo> = Vec::new();
        core::mem::swap(&mut self.todos, &mut todos);
        let _ = todos.remove(i);
        self.todos = todos;
    }

    /// Stores `todo` under its id, unless the id is taken.
    fn store(&mut self, todo: Todo) -> (r: Result<Todo, RepositoryError>)
        ensures
            store_wf(old(self).items()),
            store_wf(final(self).items()),
            create_outcome(old(self).items(), true, todo, final(self).items(), r),
    {
        match self.find(todo.id) {
            Some(_) => Err(RepositoryError::Conflict(todo.id)),
            None => {
                let stored = todo.clone();
                proof {
                    lemma_store_insert(self.items(), todo@);
                }
                self.place(todo);
                Ok(stored)
            },
        }
    }
}

impl TodoRepository for MemoryTodoRepository {
    closed spec fn items(&self) -> Listing {
        views(self.todos@)
    }

    open spec fn faultless(&self) -> bool {
        true
    }

    fn create(&mut self, todo: Todo) -> (r: Result<Todo, RepositoryError>) {
        self.store(todo)
    }

    fn get(&self, id: u128) -> (r: Result<Todo, RepositoryError>) {
        match self.find(id) {
            Some(i) => Ok(self.todos[i].clone()),
            None => Err(RepositoryError::NotFound(id)),
        }
    }

    fn list(&self) -> (r: Result<Vec<Todo>, RepositoryError>) {
        proof {
            use_type_invariant(self);
        }
        let mut listed: Vec<Todo> = Vec::new();
        let mut i: usize = 0;
        while i < self.todos.len()
            invariant
                0 <= i <= self.todos.len(),
                listed@ == self.todos@.take(i as int),
            decreases self.todos.len() - i,
        {
            listed.push(self.todos[i].clone());
            assert(listed@ =~= self.todos@.take(i + 1));
            i = i + 1;
        }
        assert(self.todos@.take(i as int) =~= self.todos@);
        Ok(listed)
    }

    fn update(&mut self, todo: Todo) -> (r: Result<Todo, RepositoryError>) {
        match self.find(todo.id) {
            Some(i) => {
                let stored = todo.clone();
                proof {
                    lemma_store_remove(self.items(), todo.id);
                    lemma_store_insert(store_remove(self.items(), todo.id), todo@);
                }
                self.take_out(i);
                self.place(todo);
                Ok(stored)
            },
            None => Err(RepositoryError::NotFound(todo.id)),
        }
    }

    fn delete(&mut self, id: u128) -> (r: Result<(), RepositoryError>) {
        match self.find(id) {
            Some(i) => {
                proof {
                    lemma_store_remove(self.items(), id);
                }
                self.take_out(i);
                Ok(())
            },
            None => Err(RepositoryError::NotFound(id)),
        }
    }

    fn create_batch(&mut self, todos: Vec<Todo>) -> (r: Result<Vec<Todo>, BatchFailure>) {
        proof {
            use_type_invariant(&*self);
        }
        let ghost before = self.items();
        let ghost wanted = views(todos@);
        let mut created: Vec<Todo> = Vec::new();
        let mut i: usize = 0;
        while i < todos.len()
            invariant
                0 <= i <= todos.len(),
                wanted == views(todos@),
                before == old(self).items(),
                store_wf(before),
                store_wf(self.items()),
                created@ == todos@.take(i as int),
                self.items() == store_insert_all(before, wanted, i as int),
                storable(before, wanted, i as int),
            decreases todos.len() - i,
        {
            let todo = todos[i].clone();
            match self.store(todo) {
                Ok(stored) => {
                    created.push(stored);
                    assert(created@ =~= todos@.take(i + 1));
                    assert(wanted[i as int] == todos[i as int]@);
                    i = i + 1;
                },
                Err(error) => {
                    return Err(BatchFailure { created, error });
                },
            }
        }
        assert(todos@.take(i as int) =~= todos@);
        Ok(created)
    }

    fn delete_completed(&mut self) -> (r: Result<usize, RepositoryError>) {
        proof {
            use_type_invariant(&*self);
        }
        let before: usize = self.todos.len();
        let mut kept: Vec<Todo> = Vec::new();
        let mut i: usize = 0;
        while i < self.todos.len()
            invariant
                0 <= i <= self.todos.len(),
                views(kept@) == pending(self.items().take(i as int)),
                kept.len() <= i,
            decreases self.todos.len() - i,
        {
            proof {
                lemma_pending_push(self.items().take(i as int), self.items()[i as int]);
                assert(self.items().take(i + 1) =~= self.items().take(i as int).push(
                    self.items()[i as int],
                ));
            }
            if !self.todos[i].completed {
                kept.push(self.todos[i].clone());
                assert(views(kept@) =~= pending(self.items().take(i as int)).push(
                    self.todos[i as int]@,
                ));
            }
            i = i + 1;
        }
        proof {
            assert(self.items().take(i as int) =~= self.items());
            lemma_pending(self.items());
        }
        self.todos = kept;
        Ok(before - self.todos.len())
    }
}

} // verus!
