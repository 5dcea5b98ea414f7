use vstd::prelude::*;

use crate::error::RepositoryError;
use crate::lemmas::{lemma_found_at, lemma_store_at_id};
use crate::todo::{merge, CreateTodo, Todo, UpdateTodo};

verus! {

/// No two tasks share an id.
pub open spec fn ids_unique(s: Seq<Todo>) -> bool {
    forall|i: int, j: int| 0 <= i < j < s.len() ==> s[i].id != s[j].id
}

/// Some task has this id.
pub open spec fn has_id(s: Seq<Todo>, id: i32) -> bool {
    exists|i: int| 0 <= i < s.len() && s[i].id == id
}

/// Where the task with this id stands, when there is one.
pub open spec fn index_of(s: Seq<Todo>, id: i32) -> int {
    choose|i: int| 0 <= i < s.len() && s[i].id == id
}

/// The task with this id.
pub open spec fn lookup(s: Seq<Todo>, id: i32) -> Option<Todo> {
    if has_id(s, id) {
        Some(s[index_of(s, id)])
    } else {
        None
    }
}

/// The id that the next created task receives: one more than the number of
/// tasks held.
pub open spec fn next_id(s: Seq<Todo>) -> int {
    s.len() as int + 1
}

/// Whether another task can still be numbered.
pub open spec fn can_create(s: Seq<Todo>) -> bool {
    next_id(s) <= i32::MAX
}

/// The task that creating `text` on `s` yields.
pub open spec fn created(s: Seq<Todo>, text: String) -> Todo {
    Todo { id: next_id(s) as i32, text, completed: false }
}

/// `s` with `t` stored under its id: a task of that id is replaced in place,
/// otherwise `t` is appended.
pub open spec fn store_at_id(s: Seq<Todo>, t: Todo) -> Seq<Todo> {
    if has_id(s, t.id) {
        s.update(index_of(s, t.id), t)
    } else {
        s.push(t)
    }
}

/// `s` without the task of this id.
pub open spec fn without_id(s: Seq<Todo>, id: i32) -> Seq<Todo> {
    if has_id(s, id) {
        s.remove(index_of(s, id))
    } else {
        s
    }
}

/// What `find` returns on `s`.
pub open spec fn find_outcome(s: Seq<Todo>, id: i32) -> Result<Todo, RepositoryError> {
    match lookup(s, id) {
        Some(t) => Ok(t),
        None => Err(RepositoryError::NotFound(id)),
    }
}

/// What `update` returns on `s`.
pub open spec fn update_outcome(s: Seq<Todo>, id: i32, payload: UpdateTodo) -> Result<
    Todo,
    RepositoryError,
> {
    match lookup(s, id) {
        Some(t) => Ok(merge(t, payload)),
        None => Err(RepositoryError::NotFound(id)),
    }
}

/// What `update` leaves on `s`.
pub open spec fn after_update(s: Seq<Todo>, id: i32, payload: UpdateTodo) -> Seq<Todo> {
    match lookup(s, id) {
        Some(t) => s.update(index_of(s, id), merge(t, payload)),
        None => s,
    }
}

/// What `delete` returns on `s`.
pub open spec fn delete_outcome(s: Seq<Todo>, id: i32) -> Result<(), RepositoryError> {
    if has_id(s, id) {
        Ok(())
    } else {
        Err(RepositoryError::NotFound(id))
    }
}

/// The tasks of one backend, in the order in which they were first stored.
pub struct TodoStore {
    todos: Vec<Todo>,
}

impl View for TodoStore {
    type V = Seq<Todo>;

    closed spec fn view(&self) -> Seq<Todo> {
        self.todos@
    }
}

impl TodoStore {
    /// No two held tasks share an id.
    pub open spec fn wf(&self) -> bool {
        ids_unique(self@)
    }

    /// An empty store.
    pub fn new() -> (r: TodoStore)
        ensures
            r.wf(),
            r@ == Seq::<Todo>::empty(),
    {
        TodoStore { todos: Vec::new() }
    }

    /// Number of tasks held.
    pub fn len(&self) -> (r: usize)
        ensures
            r == self@.len(),
    {
        self.todos.len()
    }

    /// Where the task with this id stands.
    fn position(&self, id: i32) -> (r: Option<usize>)
        requires
            self.wf(),
        ensures
            r is Some <==> has_id(self@, id),
            r matches Some(i) ==> (i == index_of(self@, id) && self@[i as int].id == id
                && lookup(self@, id) == Some(self@[i as int])),
    {
        let mut i: usize = 0;
        while i < self.todos.len()
            invariant
                self.wf(),
                0 <= i <= self@.len(),
                forall|k: int| 0 <= k < i ==> self@[k].id != id,
            decreases self@.len() - i,
        {
            if self.todos[i].id == id {
                proof {
                    lemma_found_at(self@, i as int);
                }
                return Some(i);
            }
            i += 1;
        }
        None
    }

    /// Stores `t` under its id, replacing a task of the same id in place.
    fn put(&mut self, t: Todo)
        requires
            old(self).wf(),
        ensures
            final(self).wf(),
            final(self)@ == store_at_id(old(self)@, t),
    {
        proof {
            lemma_store_at_id(self@, t);
        }
        match self.position(t.id) {
            Some(i) => {
                self.todos.set(i, t);
            },
            None => {
                self.todos.push(t);
            },
        }
    }

    /// Creates a task numbered one more than the number of tasks held; a task
    /// that already has that number is replaced. The number follows the count,
    /// not a counter: after a delete, the next task can take the number of a
    /// task still held. When no number fits in an `i32`, nothing changes and
    /// the result is `Unexpected`.
    pub fn create(&mut self, payload: CreateTodo) -> (r: Result<Todo, RepositoryError>)
        requires
            old(self).wf(),
        ensures
            final(self).wf(),
            can_create(old(self)@) ==> r == Ok::<Todo, RepositoryError>(
                created(old(self)@, payload.text),
            ) && final(self)@ == store_at_id(old(self)@, created(old(self)@, payload.text)),
            !can_create(old(self)@) ==> (r matches Err(RepositoryError::Unexpected(_)))
                && final(self)@ == old(self)@,
    {
        let n = self.todos.len();
        if n >= i32::MAX as usize {
            return Err(RepositoryError::Unexpected("no task id is left".to_string()));
        }
        let id = (n + 1) as i32;
        let todo = Todo::new(id, payload.text);
        self.put(todo.duplicate());
        Ok(todo)
    }

    /// The task with this id.
    pub fn find(&self, id: i32) -> (r: Result<Todo, RepositoryError>)
        requires
            self.wf(),
        ensures
            r == find_outcome(self@, id),
    {
        match self.position(id) {
            Some(i) => Ok(self.todos[i].duplicate()),
            None => Err(RepositoryError::NotFound(id)),
        }
    }

    /// Every task, in the order in which they were first stored.
    pub fn all(&self) -> (r: Vec<Todo>)
        ensures
            r@ == self@,
    {
        let mut out: Vec<Todo> = Vec::new();
        let mut i: usize = 0;
        while i < self.todos.len()
            invariant
                0 <= i <= self@.len(),
                out@ == self@.subrange(0, i as int),
            decreases self@.len() - i,
        {
            out.push(self.todos[i].duplicate());
            i += 1;
            assert(out@ =~= self@.subrange(0, i as int));
        }
        assert(out@ =~= self@);
        out
    }

    /// Applies the fields present in `payload` to the task with this id.
    pub fn update(&mut self, id: i32, payload: UpdateTodo) -> (r: Result<Todo, RepositoryError>)
        requires
            old(self).wf(),
        ensures
            final(self).wf(),
            r == update_outcome(old(self)@, id, payload),
            final(self)@ == after_update(old(self)@, id, payload),
    {
        match self.position(id) {
            Some(i) => {
                let todo = self.todos[i].merged(&payload);
                self.put(todo.duplicate());
                Ok(todo)
            },
            None => Err(RepositoryError::NotFound(id)),
        }
    }

    /// Removes the task with this id.
    pub fn delete(&mut self, id: i32) -> (r: Result<(), RepositoryError>)
        requires
            old(self).wf(),
        ensures
            final(self).wf(),
            r == delete_outcome(old(self)@, id),
            final(self)@ == without_id(old(self)@, id),
    {
        match self.position(id) {
            Some(i) => {
                self.todos.remove(i);
                assert(final(self).wf()) by {
                    let s = final(self)@;
                    let o = old(self)@;
                    assert forall|a: int, b: int| 0 <= a < b < s.len() implies s[a].id
                        != s[b].id by {
                        let oa = if a < i { a } else { a + 1 };
                        let ob = if b < i { b } else { b + 1 };
                        assert(s[a] == o[oa] && s[b] == o[ob]);
                    }
                }
                Ok(())
            },
            None => Err(RepositoryError::NotFound(id)),
        }
    }
}

} // verus!
