use todo_repository::{CreateTodo, UpdateTodo};

#[test]
fn create_payload_text_bounds() {
    assert!(!CreateTodo::new(String::new()).is_valid());
    assert!(CreateTodo::new("a".to_string()).is_valid());
    assert!(CreateTodo::new("a".repeat(100)).is_valid());
    assert!(!CreateTodo::new("a".repeat(101)).is_valid());
}

#[test]
fn text_length_counts_characters_not_bytes() {
    assert!(CreateTodo::new("\u{65e5}".repeat(100)).is_valid());
    assert!(!CreateTodo::new("\u{65e5}".repeat(101)).is_valid());
}

#[test]
fn update_payload_text_bounds() {
    assert!(UpdateTodo::new(None, Some(true)).is_valid());
    assert!(UpdateTodo::new(None, None).is_valid());
    assert!(!UpdateTodo::new(Some(String::new()), None).is_valid());
    assert!(UpdateTodo::new(Some("b".to_string()), None).is_valid());
    assert!(!UpdateTodo::new(Some("b".repeat(101)), Some(false)).is_valid());
}
