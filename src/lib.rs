//! A task-list persistence layer: task records, their create and update
//! payloads, a sequential store with exact contracts, a lock-guarded in-memory
//! repository built on it, and the decisions of a relational backend.
pub mod error;
pub mod lemmas;
pub mod memory;
pub mod relational;
pub mod repository;
pub mod store;
pub mod todo;

pub use error::RepositoryError;
pub use memory::TodoRepositoryForMemory;
pub use repository::TodoRepository;
pub use store::TodoStore;
pub use todo::{CreateTodo, Todo, UpdateTodo};
