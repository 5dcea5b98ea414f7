use vstd::prelude::*;

use crate::error::RepositoryError;
use crate::todo::{merge, Todo, UpdateTodo};

verus! {

/// A failure reported by the relational store's driver, as plain values.
#[derive(Debug, Clone, PartialEq, Eq)]
pub enum StoreFault {
    /// A statement that had to return a row returned none.
    RowNotFound,
    /// Any other failure, with the driver's description of it.
    Other(String),
}

/// The repository error for a fault met while working on the task `id`: a
/// missing row means that the task does not exist.
pub open spec fn fault_for_id(id: i32, fault: StoreFault) -> RepositoryError {
    match fault {
        StoreFault::RowNotFound => RepositoryError::NotFound(id),
        StoreFault::Other(m) => RepositoryError::Unexpected(m),
    }
}

/// Whether `e` is the error for a fault met where no particular task was
/// concerned: always `Unexpected`, with the driver's description if any.
pub open spec fn is_fault_without_id(fault: StoreFault, e: RepositoryError) -> bool {
    match fault {
        StoreFault::RowNotFound => e is Unexpected,
        StoreFault::Other(m) => e == RepositoryError::Unexpected(m),
    }
}

/// Maps a fault met while working on the task `id`.
pub fn fault_to_error(id: i32, fault: StoreFault) -> (r: RepositoryError)
    ensures
        r == fault_for_id(id, fault),
{
    match fault {
        StoreFault::RowNotFound => RepositoryError::NotFound(id),
        StoreFault::Other(m) => RepositoryError::Unexpected(m),
    }
}

/// Maps a fault met where no particular task was concerned.
pub fn fault_to_unexpected(fault: StoreFault) -> (r: RepositoryError)
    ensures
        is_fault_without_id(fault, r),
{
    match fault {
        StoreFault::RowNotFound => RepositoryError::Unexpected(
            "no row returned by a statement that must return one".to_string(),
        ),
        StoreFault::Other(m) => RepositoryError::Unexpected(m),
    }
}

/// The outcome of a statement that returns the row of the task `id`
/// (selecting it, or updating it): a missing row is `NotFound(id)`.
pub fn row_for_id(id: i32, fetched: Result<Todo, StoreFault>) -> (r: Result<Todo, RepositoryError>)
    ensures
        match fetched {
            Ok(t) => r == Ok::<Todo, RepositoryError>(t),
            Err(f) => r == Err::<Todo, RepositoryError>(fault_for_id(id, f)),
        },
{
    match fetched {
        Ok(t) => Ok(t),
        Err(f) => Err(fault_to_error(id, f)),
    }
}

/// The row that an update writes, given the outcome of first selecting the
/// task: the selected task with the payload applied, or the selection's error,
/// in which case nothing is written.
pub fn updated_row(found: Result<Todo, RepositoryError>, payload: &UpdateTodo) -> (r: Result<
    Todo,
    RepositoryError,
>)
    ensures
        match found {
            Ok(prev) => r == Ok::<Todo, RepositoryError>(merge(prev, *payload)),
            Err(e) => r == Err::<Todo, RepositoryError>(e),
        },
{
    match found {
        Ok(prev) => Ok(prev.merged(payload)),
        Err(e) => Err(e),
    }
}

/// The outcome of the statement that inserts a task and returns its row.
pub fn inserted_row(fetched: Result<Todo, StoreFault>) -> (r: Result<Todo, RepositoryError>)
    ensures
        match fetched {
            Ok(t) => r == Ok::<Todo, RepositoryError>(t),
            Err(f) => r matches Err(e) && is_fault_without_id(f, e),
        },
{
    match fetched {
        Ok(t) => Ok(t),
        Err(f) => Err(fault_to_unexpected(f)),
    }
}

/// The outcome of the statement that selects every task.
pub fn listed_rows(fetched: Result<Vec<Todo>, StoreFault>) -> (r: Result<
    Vec<Todo>,
    RepositoryError,
>)
    ensures
        match fetched {
            Ok(v) => r == Ok::<Vec<Todo>, RepositoryError>(v),
            Err(f) => r matches Err(e) && is_fault_without_id(f, e),
        },
{
    match fetched {
        Ok(v) => Ok(v),
        Err(f) => Err(fault_to_unexpected(f)),
    }
}

/// The outcome of the statement that deletes the task `id`, given the number
/// of rows it affected: deleting no row means that the task did not exist.
pub fn deleted_rows(id: i32, executed: Result<u64, StoreFault>) -> (r: Result<(), RepositoryError>)
    ensures
        match executed {
            Ok(n) => if n == 0 {
                r == Err::<(), RepositoryError>(RepositoryError::NotFound(id))
            } else {
                r == Ok::<(), RepositoryError>(())
            },
            Err(f) => r == Err::<(), RepositoryError>(fault_for_id(id, f)),
        },
{
    match executed {
        Ok(n) => if n == 0 {
            Err(RepositoryError::NotFound(id))
        } else {
            Ok(())
        },
        Err(f) => Err(fault_to_error(id, f)),
    }
}

} // verus!
