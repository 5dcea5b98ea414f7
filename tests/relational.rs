use todo_repository::relational::{
    deleted_rows, fault_to_error, fault_to_unexpected, inserted_row, listed_rows, row_for_id,
    updated_row, StoreFault,
};
use todo_repository::{RepositoryError, Todo, UpdateTodo};

#[test]
fn missing_row_for_an_id_is_not_found() {
    assert_eq!(
        row_for_id(4, Err(StoreFault::RowNotFound)),
        Err(RepositoryError::NotFound(4))
    );
    assert_eq!(
        fault_to_error(4, StoreFault::RowNotFound),
        RepositoryError::NotFound(4)
    );
}

#[test]
fn other_faults_are_unexpected_with_their_message() {
    assert_eq!(
        row_for_id(4, Err(StoreFault::Other("pool timed out".to_string()))),
        Err(RepositoryError::Unexpected("pool timed out".to_string()))
    );
    assert_eq!(
        listed_rows(Err(StoreFault::Other("closed".to_string()))),
        Err(RepositoryError::Unexpected("closed".to_string()))
    );
}

#[test]
fn rows_pass_through() {
    let t = Todo::new(3, "x".to_string());
    assert_eq!(row_for_id(3, Ok(t.clone())), Ok(t.clone()));
    assert_eq!(inserted_row(Ok(t.clone())), Ok(t.clone()));
    assert_eq!(listed_rows(Ok(vec![t.clone()])), Ok(vec![t]));
}

#[test]
fn missing_row_without_an_id_is_unexpected() {
    assert!(matches!(
        inserted_row(Err(StoreFault::RowNotFound)),
        Err(RepositoryError::Unexpected(_))
    ));
    assert!(matches!(
        fault_to_unexpected(StoreFault::RowNotFound),
        RepositoryError::Unexpected(_)
    ));
}

#[test]
fn deleting_no_row_is_not_found() {
    assert_eq!(deleted_rows(9, Ok(0)), Err(RepositoryError::NotFound(9)));
    assert_eq!(deleted_rows(9, Ok(1)), Ok(()));
    assert_eq!(
        deleted_rows(9, Err(StoreFault::Other("broken".to_string()))),
        Err(RepositoryError::Unexpected("broken".to_string()))
    );
}

#[test]
fn update_writes_the_merged_row_of_a_found_task() {
    let prev = Todo { id: 1, text: "a".to_string(), completed: false };
    assert_eq!(
        updated_row(Ok(prev.clone()), &UpdateTodo::new(None, Some(true))),
        Ok(Todo { id: 1, text: "a".to_string(), completed: true })
    );
    assert_eq!(
        updated_row(Ok(prev), &UpdateTodo::new(Some("b".to_string()), None)),
        Ok(Todo { id: 1, text: "b".to_string(), completed: false })
    );
}

#[test]
fn update_of_an_absent_task_stops_with_not_found() {
    let found = row_for_id(999, Err(StoreFault::RowNotFound));
    assert_eq!(
        updated_row(found, &UpdateTodo::new(Some("x".to_string()), Some(true))),
        Err(RepositoryError::NotFound(999))
    );
}
