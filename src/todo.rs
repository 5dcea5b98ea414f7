use vstd::prelude::*;

verus! {

/// Fewest characters a task text may hold.
pub const TEXT_MIN_LEN: u64 = 1;

/// Most characters a task text may hold.
pub const TEXT_MAX_LEN: u64 = 100;

/// A task text is acceptable when it holds between 1 and 100 characters.
pub open spec fn valid_text(s: Seq<char>) -> bool {
    TEXT_MIN_LEN <= s.len() <= TEXT_MAX_LEN
}

/// Relies on validator::validate_length: for a `String` it counts the
/// characters and compares the count with both bounds.
#[verifier::external_body]
fn length_within(s: &String, min: u64, max: u64) -> (r: bool)
    ensures
        r == (min <= s@.len() && s@.len() <= max),
{
    validator::validate_length(s, Some(min), Some(max), None)
}

/// A stored task.
#[derive(Debug, Clone, PartialEq, Eq)]
pub struct Todo {
    pub id: i32,
    pub text: String,
    pub completed: bool,
}

/// Payload that creates a task.
#[derive(Debug, Clone, PartialEq, Eq)]
pub struct CreateTodo {
    pub text: String,
}

/// Payload that changes a task: an absent field leaves that field as it is.
#[derive(Debug, Clone, PartialEq, Eq)]
pub struct UpdateTodo {
    pub text: Option<String>,
    pub completed: Option<bool>,
}

/// The task that results from applying `payload` to `t`.
pub open spec fn merge(t: Todo, payload: UpdateTodo) -> Todo {
    Todo {
        id: t.id,
        text: match payload.text {
            Some(s) => s,
            None => t.text,
        },
        completed: match payload.completed {
            Some(c) => c,
            None => t.completed,
        },
    }
}

impl Todo {
    /// A task that is not completed yet.
    pub fn new(id: i32, text: String) -> (r: Todo)
        ensures
            r == (Todo { id, text, completed: false }),
    {
        Todo { id, text, completed: false }
    }

    /// A task equal to this one that owns its own text.
    pub fn duplicate(&self) -> (r: Todo)
        ensures
            r == *self,
    {
        Todo { id: self.id, text: self.text.clone(), completed: self.completed }
    }

    /// The task as an update with `payload` leaves it: a field left out keeps its value.
    pub fn merged(&self, payload: &UpdateTodo) -> (r: Todo)
        ensures
            r == merge(*self, *payload),
    {
        let text = match &payload.text {
            Some(s) => s.clone(),
            None => self.text.clone(),
        };
        let completed = match payload.completed {
            Some(c) => c,
            None => self.completed,
        };
        Todo { id: self.id, text, completed }
    }
}

impl CreateTodo {
    pub fn new(text: String) -> (r: CreateTodo)
        ensures
            r.text == text,
    {
        CreateTodo { text }
    }

    /// Whether the payload may reach a repository.
    pub fn is_valid(&self) -> (r: bool)
        ensures
            r == valid_text(self.text@),
    {
        length_within(&self.text, TEXT_MIN_LEN, TEXT_MAX_LEN)
    }
}

impl UpdateTodo {
    pub fn new(text: Option<String>, completed: Option<bool>) -> (r: UpdateTodo)
        ensures
            r.text == text,
            r.completed == completed,
    {
        UpdateTodo { text, completed }
    }

    /// Whether the payload may reach a repository: a text, when present, is
    /// acceptable.
    pub fn is_valid(&self) -> (r: bool)
        ensures
            r == match self.text {
                Some(s) => valid_text(s@),
                None => true,
            },
    {
        match &self.text {
            Some(s) => length_within(s, TEXT_MIN_LEN, TEXT_MAX_LEN),
            None => true,
        }
    }
}

} // verus!
