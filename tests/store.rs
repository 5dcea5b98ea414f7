use todo_repository::{CreateTodo, RepositoryError, Todo, TodoStore, UpdateTodo};

fn store_with(texts: &[&str]) -> TodoStore {
    let mut store = TodoStore::new();
    for t in texts {
        store.create(CreateTodo::new(t.to_string())).unwrap();
    }
    store
}

#[test]
fn store_numbers_tasks_from_one() {
    let store = store_with(&["x", "y", "z"]);
    assert_eq!(store.len(), 3);
    let all = store.all();
    assert_eq!(
        all,
        vec![
            Todo { id: 1, text: "x".to_string(), completed: false },
            Todo { id: 2, text: "y".to_string(), completed: false },
            Todo { id: 3, text: "z".to_string(), completed: false },
        ]
    );
}

#[test]
fn store_create_after_delete_reuses_the_count_based_id() {
    let mut store = store_with(&["first", "second"]);
    assert_eq!(store.delete(1), Ok(()));
    let t = store.create(CreateTodo::new("third".to_string())).unwrap();
    assert_eq!(t.id, 2);
    assert_eq!(store.len(), 1);
    assert_eq!(store.all(), vec![Todo { id: 2, text: "third".to_string(), completed: false }]);
}

#[test]
fn store_update_keeps_position() {
    let mut store = store_with(&["a", "b", "c"]);
    store.update(2, UpdateTodo::new(Some("B".to_string()), None)).unwrap();
    let texts: Vec<String> = store.all().into_iter().map(|t| t.text).collect();
    assert_eq!(texts, vec!["a", "B", "c"]);
}

#[test]
fn store_delete_keeps_order_of_the_rest() {
    let mut store = store_with(&["a", "b", "c"]);
    store.delete(2).unwrap();
    let ids: Vec<i32> = store.all().into_iter().map(|t| t.id).collect();
    assert_eq!(ids, vec![1, 3]);
}

#[test]
fn store_absent_id_errors() {
    let mut store = TodoStore::new();
    assert_eq!(store.find(1), Err(RepositoryError::NotFound(1)));
    assert_eq!(
        store.update(1, UpdateTodo::new(None, None)),
        Err(RepositoryError::NotFound(1))
    );
    assert_eq!(store.delete(1), Err(RepositoryError::NotFound(1)));
    assert_eq!(store.len(), 0);
}

#[test]
fn store_empty_update_changes_nothing() {
    let mut store = store_with(&["a"]);
    let t = store.update(1, UpdateTodo::new(None, None)).unwrap();
    assert_eq!(t, Todo { id: 1, text: "a".to_string(), completed: false });
}

#[test]
fn merged_applies_present_fields_only() {
    let t = Todo::new(7, "old".to_string());
    assert_eq!(
        t.merged(&UpdateTodo::new(None, Some(true))),
        Todo { id: 7, text: "old".to_string(), completed: true }
    );
    assert_eq!(
        t.merged(&UpdateTodo::new(Some("new".to_string()), None)),
        Todo { id: 7, text: "new".to_string(), completed: false }
    );
    assert_eq!(t.duplicate(), t);
}
