use vstd::prelude::*;

use crate::error::RepositoryError;
use crate::store::ids_unique;
use crate::todo::{merge, CreateTodo, Todo, UpdateTodo};

verus! {

/// The operations that every backend offers on the tasks it holds.
///
/// A backend may be shared by many callers at once, so these contracts speak
/// of one call alone: what holds of its result whatever other callers did in
/// between. A backend never returns `NotFound` for an id other than the one
/// asked for, and reports other storage faults as `Unexpected`.
pub trait TodoRepository: Clone + Send + Sync + 'static {
    /// Stores a new task with the payload's text, not completed yet.
    fn create(&self, payload: CreateTodo) -> (r: Result<Todo, RepositoryError>)
        ensures
            r matches Ok(t) ==> t.text == payload.text && !t.completed,
            r matches Err(e) ==> e is Unexpected,
    ;

    /// The current task with this id.
    fn find(&self, id: i32) -> (r: Result<Todo, RepositoryError>)
        ensures
            r matches Ok(t) ==> t.id == id,
            r matches Err(e) ==> e == RepositoryError::NotFound(id) || e is Unexpected,
    ;

    /// Every current task.
    fn all(&self) -> (r: Result<Vec<Todo>, RepositoryError>)
        ensures
            r matches Ok(v) ==> ids_unique(v@),
            r matches Err(e) ==> e is Unexpected,
    ;

    /// Applies the fields present in `payload` to the task with this id.
    fn update(&self, id: i32, payload: UpdateTodo) -> (r: Result<Todo, RepositoryError>)
        ensures
            r matches Ok(t) ==> exists|prev: Todo| prev.id == id && t == merge(prev, payload),
            r matches Err(e) ==> e == RepositoryError::NotFound(id) || e is Unexpected,
    ;

    /// Removes the task with this id.
    fn delete(&self, id: i32) -> (r: Result<(), RepositoryError>)
        ensures
            r matches Err(e) ==> e == RepositoryError::NotFound(id) || e is Unexpected,
    ;
}

} // verus!
