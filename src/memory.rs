use std::sync::Arc;

use vstd::prelude::*;
use vstd::rwlock::{ReadHandle, RwLock, RwLockPredicate, WriteHandle};

use crate::error::RepositoryError;
use crate::repository::TodoRepository;
use crate::store::{lookup, TodoStore};
use crate::todo::{merge, CreateTodo, Todo, UpdateTodo};

verus! {

/// What the lock guarantees of the store it guards.
pub struct StoreIsWellFormed;

impl RwLockPredicate<TodoStore> for StoreIsWellFormed {
    open spec fn inv(self, v: TodoStore) -> bool {
        v.wf()
    }
}

/// A backend that keeps its tasks in memory. Clones share one store, guarded
/// by a reader-writer lock: `find` and `all` take it for reading, the other
/// operations for writing, each for the span of one store operation.
#[derive(Clone)]
pub struct TodoRepositoryForMemory {
    store: Arc<RwLock<TodoStore, StoreIsWellFormed>>,
}

impl TodoRepositoryForMemory {
    /// A backend with no tasks.
    pub fn new() -> (r: TodoRepositoryForMemory) {
        let store = RwLock::new(TodoStore::new(), Ghost(StoreIsWellFormed));
        TodoRepositoryForMemory { store: Arc::new(store) }
    }

    /// Takes the lock for writing: the store is handed out until the handle
    /// puts it back.
    fn write_store_ref(&self) -> (r: (TodoStore, WriteHandle<'_, TodoStore, StoreIsWellFormed>))
        ensures
            r.0.wf(),
            r.1.rwlock() == *self.store,
    {
        self.store.acquire_write()
    }

    /// Takes the lock for reading.
    fn read_store_ref(&self) -> (r: ReadHandle<'_, TodoStore, StoreIsWellFormed>)
        ensures
            r.view().wf(),
            r.rwlock() == *self.store,
    {
        self.store.acquire_read()
    }
}

impl TodoRepository for TodoRepositoryForMemory {
    /// Numbers the task one more than the number of tasks held, as
    /// `TodoStore::create` does.
    fn create(&self, payload: CreateTodo) -> (r: Result<Todo, RepositoryError>)
        ensures
            r matches Ok(t) ==> t.id >= 1,
    {
        let (mut store, handle) = self.write_store_ref();
        let r = store.create(payload);
        handle.release_write(store);
        r
    }

    fn find(&self, id: i32) -> (r: Result<Todo, RepositoryError>)
        ensures
            r matches Err(e) ==> e == RepositoryError::NotFound(id),
    {
        let handle = self.read_store_ref();
        let r = handle.borrow().find(id);
        handle.release_read();
        r
    }

    fn all(&self) -> (r: Result<Vec<Todo>, RepositoryError>)
        ensures
            r is Ok,
    {
        let handle = self.read_store_ref();
        let r = handle.borrow().all();
        handle.release_read();
        Ok(r)
    }

    fn update(&self, id: i32, payload: UpdateTodo) -> (r: Result<Todo, RepositoryError>)
        ensures
            r matches Err(e) ==> e == RepositoryError::NotFound(id),
    {
        let (mut store, handle) = self.write_store_ref();
        let ghost before = store@;
        let r = store.update(id, payload);
        handle.release_write(store);
        proof {
            if let Some(prev) = lookup(before, id) {
                assert(r == Ok::<Todo, RepositoryError>(merge(prev, payload)));
            }
        }
        r
    }

    fn delete(&self, id: i32) -> (r: Result<(), RepositoryError>)
        ensures
            r matches Err(e) ==> e == RepositoryError::NotFound(id),
    {
        let (mut store, handle) = self.write_store_ref();
        let r = store.delete(id);
        handle.release_write(store);
        r
    }
}

} // verus!
