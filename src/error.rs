use vstd::prelude::*;

verus! {

/// Failure kinds shared by every repository backend.
#[derive(Debug, Clone, PartialEq, Eq)]
pub enum RepositoryError {
    /// No task with this id exists.
    NotFound(i32),
    /// A storage fault that is not a missing record, with its description.
    Unexpected(String),
}

} // verus!
