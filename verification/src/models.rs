//! The persisted item, the request shapes that create and change it, and the
//! response shapes of the batch operations.

use vstd::prelude::*;

verus! {

/// A point in time: whole seconds since the Unix epoch and the nanoseconds
/// past that second. Ordered by seconds first, then nanoseconds.
#[derive(Clone, Copy, Debug, PartialEq, Eq, Structural)]
pub struct Timestamp {
    pub secs: i64,
    pub nanos: u32,
}

impl Timestamp {
    /// `self` is not later than `other`.
    pub open spec fn spec_le(self, other: Timestamp) -> bool {
        self.secs < other.secs || (self.secs == other.secs && self.nanos <= other.nanos)
    }

    /// Whether `self` is not later than `other`.
    pub fn le(&self, other: &Timestamp) -> (b: bool)
        ensures
            b == self.spec_le(*other),
    {
        self.secs < other.secs || (self.secs == other.secs && self.nanos <= other.nanos)
    }
}

/// The persisted task record.
#[derive(Debug, PartialEq, Eq)]
pub struct Todo {
    pub id: u128,
    pub title: String,
    pub description: Option<String>,
    pub completed: bool,
    pub created_at: Timestamp,
    pub updated_at: Timestamp,
}

/// What a `Todo` holds, with its texts as character sequences.
pub struct TodoView {
    pub id: u128,
    pub title: Seq<char>,
    pub description: Option<Seq<char>>,
    pub completed: bool,
    pub created_at: Timestamp,
    pub updated_at: Timestamp,
}

/// The characters of an optional text.
pub open spec fn text_view(text: Option<String>) -> Option<Seq<char>> {
    match text {
        Some(s) => Some(s@),
        None => None,
    }
}

impl View for Todo {
    type V = TodoView;

    open spec fn view(&self) -> TodoView {
        TodoView {
            id: self.id,
            title: self.title@,
            description: text_view(self.description),
            completed: self.completed,
            created_at: self.created_at,
            updated_at: self.updated_at,
        }
    }
}

/// What a sequence of items holds, item by item.
pub open spec fn views(items: Seq<Todo>) -> Seq<TodoView> {
    items.map_values(|item: Todo| item@)
}

impl TodoView {
    /// The item invariants: a title that is not empty, and a last change that
    /// is not earlier than the creation.
    pub open spec fn wf(self) -> bool {
        self.title.len() > 0 && self.created_at.spec_le(self.updated_at)
    }
}

/// Copies an optional text.
pub fn clone_text(text: &Option<String>) -> (copy: Option<String>)
    ensures
        copy == *text,
{
    match text {
        Some(s) => Some(s.clone()),
        None => None,
    }
}

impl Clone for Todo {
    fn clone(&self) -> (copy: Todo)
        ensures
            copy == *self,
    {
        let description = clone_text(&self.description);
        Todo {
            id: self.id,
            title: self.title.clone(),
            description,
            completed: self.completed,
            created_at: self.created_at,
            updated_at: self.updated_at,
        }
    }
}

/// The input of a create: a title and an optional description.
#[derive(Debug)]
pub struct CreateTodoRequest {
    pub title: String,
    pub description: Option<String>,
}

/// The input of an update. A field that is `None` leaves the item's field as
/// it was.
#[derive(Debug)]
pub struct UpdateTodoRequest {
    pub title: Option<String>,
    pub description: Option<String>,
    pub completed: Option<bool>,
}

/// The input of a batch create.
#[derive(Debug)]
pub struct BatchCreateRequest {
    pub todos: Vec<CreateTodoRequest>,
}

/// The outcome of a batch create: how many items were asked for, the items
/// that were stored, in input order, and the failure that ended the batch
/// early, if one did.
#[derive(Debug)]
pub struct BatchCreateResponse {
    pub created: Vec<Todo>,
    pub total: usize,
    pub errors: Vec<String>,
}

/// The input of a batch delete.
#[derive(Debug)]
pub struct BatchDeleteRequest {
    pub ids: Vec<u128>,
}

/// The outcome of a batch delete.
#[derive(Debug)]
pub struct BatchDeleteResponse {
    pub deleted: usize,
    pub not_found: Vec<u128>,
}

/// The outcome of deleting every completed item.
#[derive(Debug)]
pub struct DeleteCompletedResponse {
    pub deleted_count: usize,
}

impl Todo {
    /// The item that a create with `input` makes at time `now` under `id`.
    pub open spec fn spec_new(id: u128, input: CreateTodoRequest, now: Timestamp) -> TodoView {
        TodoView {
            id,
            title: input.title@,
            description: text_view(input.description),
            completed: false,
            created_at: now,
            updated_at: now,
        }
    }

    /// Makes the item of a create: not completed, created and last changed at
    /// `now`.
    pub fn new(id: u128, input: CreateTodoRequest, now: Timestamp) -> (todo: Todo)
        ensures
            todo@ == Todo::spec_new(id, input, now),
    {
        Todo {
            id,
            title: input.title,
            description: input.description,
            completed: false,
            created_at: now,
            updated_at: now,
        }
    }

    /// The item that an update with `change` at time `now` makes of `item`: a
    /// field that the change names takes its value, every other field stays,
    /// and the last change is `now`.
    pub open spec fn spec_apply(item: TodoView, change: UpdateTodoRequest, now: Timestamp) -> TodoView {
        TodoView {
            id: item.id,
            title: match change.title {
                Some(title) => title@,
                None => item.title,
            },
            description: match change.description {
                Some(description) => Some(description@),
                None => item.description,
            },
            completed: match change.completed {
                Some(completed) => completed,
                None => item.completed,
            },
            created_at: item.created_at,
            updated_at: now,
        }
    }

    /// Applies an update to the item.
    pub fn apply(self, change: UpdateTodoRequest, now: Timestamp) -> (todo: Todo)
        ensures
            todo@ == Todo::spec_apply(self@, change, now),
    {
        let title = match change.title {
            Some(title) => title,
            None => self.title,
        };
        let description = match change.description {
            Some(description) => Some(description),
            None => self.description,
        };
        let completed = match change.completed {
            Some(completed) => completed,
            None => self.completed,
        };
        Todo {
            id: self.id,
            title,
            description,
            completed,
            created_at: self.created_at,
            updated_at: now,
        }
    }
}

/// Whether an update that found the item with `was_completed` and left it
/// with `is_completed` completed it: the one change that is announced.
pub open spec fn spec_completes(was_completed: bool, is_completed: bool) -> bool {
    !was_completed && is_completed
}

/// Whether a change of the completion flag from `was_completed` to
/// `is_completed` completes the item.
#[verifier::when_used_as_spec(spec_completes)]
pub fn completes(was_completed: bool, is_completed: bool) -> (announced: bool)
    ensures
        announced == spec_completes(was_completed, is_completed),
{
    !was_completed && is_completed
}

} // verus!
