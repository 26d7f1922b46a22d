//! The persisted layout of an item, a row of six columns with the id and the
//! timestamps as text, and what a relational store's answers mean for each
//! operation of the storage contract.

use vstd::prelude::*;
use vstd::string::*;
use crate::clock::{format_rfc3339, parse_rfc3339, rfc3339_text, rfc3339_value};
use crate::ident::{format_uuid, parse_uuid, uuid_text, uuid_value};
use crate::models::{clone_text, text_view, Timestamp, Todo, TodoView};
use crate::repository::RepositoryError;

verus! {

/// An item as a relational store keeps it: the id in hyphenated
/// hexadecimal, the timestamps in RFC 3339.
#[derive(Debug, PartialEq, Eq)]
pub struct TodoRow {
    pub id: String,
    pub title: String,
    pub description: Option<String>,
    pub completed: bool,
    pub created_at: String,
    pub updated_at: String,
}

/// Writes an id as it stands in the id column.
pub fn id_text(id: u128) -> (text: String)
    ensures
        text@ == uuid_text(id),
{
    format_uuid(id)
}

/// The row that `todo` is written to, given the texts of its two timestamps;
/// a timestamp without a text names the column that cannot be written.
pub open spec fn spec_compose(
    todo: TodoView,
    created_at: Option<Seq<char>>,
    updated_at: Option<Seq<char>>,
    row: Result<TodoRow, RepositoryError>,
) -> bool {
    match (created_at, updated_at) {
        (Some(created), Some(updated)) => {
            &&& row matches Ok(written)
            &&& written.id@ == uuid_text(todo.id)
            &&& written.title@ == todo.title
            &&& text_view(written.description) == todo.description
            &&& written.completed == todo.completed
            &&& written.created_at@ == created
            &&& written.updated_at@ == updated
        },
        (None, _) => row matches Err(RepositoryError::InvalidData(column)) && column@
            == "created_at"@,
        (Some(_), None) => row matches Err(RepositoryError::InvalidData(column)) && column@
            == "updated_at"@,
    }
}

/// Writes an item as a row.
pub fn encode_row(todo: &Todo) -> (row: Result<TodoRow, RepositoryError>)
    ensures
        spec_compose(
            todo@,
            rfc3339_text(todo.created_at.secs, todo.created_at.nanos),
            rfc3339_text(todo.updated_at.secs, todo.updated_at.nanos),
            row,
        ),
{
    let created_at = match format_rfc3339(todo.created_at) {
        Some(text) => text,
        None => {
            return Err(RepositoryError::InvalidData(String::from_str("created_at")));
        },
    };
    let updated_at = match format_rfc3339(todo.updated_at) {
        Some(text) => text,
        None => {
            return Err(RepositoryError::InvalidData(String::from_str("updated_at")));
        },
    };
    Ok(
        TodoRow {
            id: format_uuid(todo.id),
            title: todo.title.clone(),
            description: clone_text(&todo.description),
            completed: todo.completed,
            created_at,
            updated_at,
        },
    )
}

/// The item that a row holds, given what its id and its two timestamps were
/// read as; the first of the three that could not be read names its column.
pub open spec fn spec_assemble(
    row: &TodoRow,
    id: Option<u128>,
    created_at: Option<Timestamp>,
    updated_at: Option<Timestamp>,
) -> Result<TodoView, Seq<char>> {
    match (id, created_at, updated_at) {
        (Some(id), Some(created_at), Some(updated_at)) => Ok(
            TodoView {
                id,
                title: row.title@,
                description: text_view(row.description),
                completed: row.completed,
                created_at,
                updated_at,
            },
        ),
        (None, _, _) => Err("id"@),
        (Some(_), None, _) => Err("created_at"@),
        (Some(_), Some(_), None) => Err("updated_at"@),
    }
}

/// Whether `r` reports `expected`: the item, or `InvalidData` with the name
/// of the column that could not be read.
pub open spec fn reports(r: Result<Todo, RepositoryError>, expected: Result<TodoView, Seq<char>>) -> bool {
    match expected {
        Ok(item) => r matches Ok(todo) && todo@ == item,
        Err(column) => r matches Err(RepositoryError::InvalidData(named)) && named@ == column,
    }
}

/// Puts an item together from a row and from what its id and timestamps
/// were read as.
pub fn assemble(
    row: &TodoRow,
    id: Option<u128>,
    created_at: Option<Timestamp>,
    updated_at: Option<Timestamp>,
) -> (r: Result<Todo, RepositoryError>)
    ensures
        reports(r, spec_assemble(row, id, created_at, updated_at)),
{
    let id = match id {
        Some(id) => id,
        None => {
            return Err(RepositoryError::InvalidData(String::from_str("id")));
        },
    };
    let created_at = match created_at {
        Some(time) => time,
        None => {
            return Err(RepositoryError::InvalidData(String::from_str("created_at")));
        },
    };
    let updated_at = match updated_at {
        Some(time) => time,
        None => {
            return Err(RepositoryError::InvalidData(String::from_str("updated_at")));
        },
    };
    Ok(
        Todo {
            id,
            title: row.title.clone(),
            description: clone_text(&row.description),
            completed: row.completed,
            created_at,
            updated_at,
        },
    )
}

/// A time read from text, as a timestamp.
pub open spec fn as_timestamp(read: Option<(i64, u32)>) -> Option<Timestamp> {
    match read {
        Some((secs, nanos)) => Some(Timestamp { secs, nanos }),
        None => None,
    }
}

/// The item that a row holds.
pub open spec fn spec_decode(row: TodoRow) -> Result<TodoView, Seq<char>> {
    spec_assemble(
        &row,
        uuid_value(row.id@),
        as_timestamp(rfc3339_value(row.created_at@)),
        as_timestamp(rfc3339_value(row.updated_at@)),
    )
}

/// Reads a row as an item.
pub fn decode_row(row: &TodoRow) -> (r: Result<Todo, RepositoryError>)
    ensures
        reports(r, spec_decode(*row)),
{
    let id = parse_uuid(row.id.as_str());
    let created_at = parse_rfc3339(row.created_at.as_str());
    let updated_at = parse_rfc3339(row.updated_at.as_str());
    assemble(row, id, created_at, updated_at)
}

/// Whether `r` is the storage fault that `operation` met with `words`.
pub open spec fn faulted<T>(
    r: Result<T, RepositoryError>,
    operation: Seq<char>,
    id: Option<u128>,
    words: Seq<char>,
) -> bool {
    r matches Err(RepositoryError::Database(text)) && text@ == RepositoryError::spec_fault_text(
        operation,
        id,
        words,
    )
}

/// What the answer to an insert means: the item as it was given where the
/// statement went through, a storage fault where it did not.
pub fn inserted(todo: Todo, executed: Result<u64, String>) -> (r: Result<Todo, RepositoryError>)
    ensures
        match executed {
            Ok(_) => r == Ok::<Todo, RepositoryError>(todo),
            Err(words) => faulted(r, "create"@, Some(todo.id), words@),
        },
{
    match executed {
        Ok(_) => Ok(todo),
        Err(words) => Err(RepositoryError::fault("create", Some(todo.id), words.as_str())),
    }
}

/// What the answer to a select by id means: the item of the row that came
/// back, `NotFound` with the id where none did, a storage fault where the
/// statement failed.
pub fn fetched(id: u128, selected: Result<Option<TodoRow>, String>) -> (r: Result<
    Todo,
    RepositoryError,
>)
    ensures
        match selected {
            Ok(Some(found)) => reports(r, spec_decode(found)),
            Ok(None) => r == Err::<Todo, RepositoryError>(RepositoryError::NotFound(id)),
            Err(words) => faulted(r, "get"@, Some(id), words@),
        },
{
    match selected {
        Ok(Some(found)) => decode_row(&found),
        Ok(None) => Err(RepositoryError::NotFound(id)),
        Err(words) => Err(RepositoryError::fault("get", Some(id), words.as_str())),
    }
}

/// Whether `r` is the reading of `rows`: their items, in their order, or
/// the failure of the first row that cannot be read.
pub open spec fn reads_rows(r: Result<Vec<Todo>, RepositoryError>, rows: Seq<TodoRow>) -> bool {
    match r {
        Ok(todos) => todos.len() == rows.len() && forall|i: int|
            0 <= i < rows.len() ==> spec_decode(rows[i]) == Ok::<TodoView, Seq<char>>(
                (#[trigger] todos[i])@,
            ),
        Err(e) => exists|k: int|
            0 <= k < rows.len() && reports(
                Err::<Todo, RepositoryError>(e),
                #[trigger] spec_decode(rows[k]),
            ) && spec_decode(rows[k]) is Err && forall|i: int|
                0 <= i < k ==> (#[trigger] spec_decode(rows[i])) is Ok,
    }
}

/// What the answer to a select of every row means: the items of the rows,
/// in their order; the first row that cannot be read fails the listing, and
/// so does a statement that failed.
pub fn listed(selected: Result<Vec<TodoRow>, String>) -> (r: Result<Vec<Todo>, RepositoryError>)
    ensures
        match selected {
            Ok(rows) => reads_rows(r, rows@),
            Err(words) => faulted(r, "list"@, None, words@),
        },
{
    let rows = match selected {
        Ok(rows) => rows,
        Err(words) => {
            return Err(RepositoryError::fault("list", None, words.as_str()));
        },
    };
    let mut todos: Vec<Todo> = Vec::new();
    let mut i: usize = 0;
    while i < rows.len()
        invariant
            0 <= i <= rows.len(),
            selected == Ok::<Vec<TodoRow>, String>(rows),
            todos.len() == i,
            forall|j: int|
                0 <= j < i ==> spec_decode(rows[j]) == Ok::<TodoView, Seq<char>>(
                    (#[trigger] todos[j])@,
                ),
        decreases rows.len() - i,
    {
        match decode_row(&rows[i]) {
            Ok(todo) => {
                todos.push(todo);
            },
            Err(e) => {
                assert forall|j: int| 0 <= j < i implies (#[trigger] spec_decode(rows[j])) is Ok by {
                    assert(spec_decode(rows[j]) == Ok::<TodoView, Seq<char>>(todos[j]@));
                }
                assert(reports(Err::<Todo, RepositoryError>(e), spec_decode(rows[i as int])));
                return Err(e);
            },
        }
        i = i + 1;
    }
    Ok(todos)
}

/// What the answer to an update means: `NotFound` with the id where no row
/// was changed, the item as it was given where one was, a storage fault
/// where the statement failed.
pub fn updated(todo: Todo, executed: Result<u64, String>) -> (r: Result<Todo, RepositoryError>)
    ensures
        match executed {
            Ok(rows_affected) => r == if rows_affected == 0 {
                Err::<Todo, RepositoryError>(RepositoryError::NotFound(todo.id))
            } else {
                Ok::<Todo, RepositoryError>(todo)
            },
            Err(words) => faulted(r, "update"@, Some(todo.id), words@),
        },
{
    match executed {
        Ok(rows_affected) => if rows_affected == 0 {
            Err(RepositoryError::NotFound(todo.id))
        } else {
            Ok(todo)
        },
        Err(words) => Err(RepositoryError::fault("update", Some(todo.id), words.as_str())),
    }
}

/// What the answer to a delete by id means: `NotFound` with the id where no
/// row was removed, a storage fault where the statement failed.
pub fn deleted(id: u128, executed: Result<u64, String>) -> (r: Result<(), RepositoryError>)
    ensures
        match executed {
            Ok(rows_affected) => r == if rows_affected == 0 {
                Err::<(), RepositoryError>(RepositoryError::NotFound(id))
            } else {
                Ok::<(), RepositoryError>(())
            },
            Err(words) => faulted(r, "delete"@, Some(id), words@),
        },
{
    match executed {
        Ok(rows_affected) => if rows_affected == 0 {
            Err(RepositoryError::NotFound(id))
        } else {
            Ok(())
        },
        Err(words) => Err(RepositoryError::fault("delete", Some(id), words.as_str())),
    }
}

/// What the answer to a delete of the completed rows means: the number of
/// rows removed, capped at the largest count the machine has, or a storage
/// fault where the statement failed.
pub fn deleted_completed(executed: Result<u64, String>) -> (r: Result<usize, RepositoryError>)
    ensures
        match executed {
            Ok(rows_affected) => r == Ok::<usize, RepositoryError>(
                if rows_affected <= usize::MAX {
                    rows_affected as usize
                } else {
                    usize::MAX
                },
            ),
            Err(words) => faulted(r, "delete_completed"@, None, words@),
        },
{
    match executed {
        Ok(rows_affected) => if rows_affected <= usize::MAX as u64 {
            Ok(rows_affected as usize)
        } else {
            Ok(usize::MAX)
        },
        Err(words) => Err(RepositoryError::fault("delete_completed", None, words.as_str())),
    }
}

} // verus!
