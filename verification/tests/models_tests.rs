use todo_rs::models::{JsonData, JsonDataError, Todo, TodoError};

#[test]
fn try_new_valid_boundaries_and_unicode() {
    // Lower boundary (exactly 4 chars)
    let min_todo = Todo::try_new(1, "1234".to_string(), false);
    assert_eq!(
        min_todo,
        Ok(Todo {
            id: 1,
            title: "1234".to_string(),
            completed: false,
        })
    );

    // Upper boundary (exactly 200 chars)
    let max_title = "a".repeat(200);
    let max_todo = Todo::try_new(2, max_title.clone(), true);
    assert_eq!(
        max_todo,
        Ok(Todo {
            id: 2,
            title: max_title,
            completed: true,
        })
    );

    // Unicode character count check (4 multi-byte characters)
    let unicode_todo = Todo::try_new(3, "🦀🦀🦀🦀".to_string(), false);
    assert!(unicode_todo.is_ok());
}

#[test]
fn try_new_invalid_lengths() {
    assert_eq!(
        Todo::try_new(1, "".to_string(), false),
        Err(TodoError::TitleInvalidLength(0))
    );
    assert_eq!(
        Todo::try_new(2, "123".to_string(), false),
        Err(TodoError::TitleInvalidLength(3))
    );
    let too_long_title = "a".repeat(201);
    assert_eq!(
        Todo::try_new(3, too_long_title, false),
        Err(TodoError::TitleInvalidLength(201))
    );
}

#[test]
fn display_uncompleted_todo() {
    let todo = Todo {
        id: 1,
        title: "Buy groceries".to_string(),
        completed: false,
    };
    assert_eq!(todo.to_string(), "1 [ ] Buy groceries");
}

#[test]
fn display_completed_todo() {
    let todo = Todo {
        id: 42,
        title: "Write Rust tests".to_string(),
        completed: true,
    };
    assert_eq!(todo.to_string(), "42 [x] Write Rust tests");
}

#[test]
fn add_todo_auto_increments_id() {
    let mut data = JsonData::default();

    let first = data.add_todo("first".to_string()).unwrap();
    assert_eq!(first.id, 1);
    assert_eq!(first.title, "first");
    assert!(!first.completed);

    let second = data.add_todo("second".to_string()).unwrap();
    assert_eq!(second.id, 2);
    assert_eq!(second.title, "second");
    assert_eq!(data.todos.len(), 2);
}

#[test]
fn find_todo_by_id_found() {
    let mut data = JsonData::default();

    data.add_todo("Buy milk".to_string()).unwrap();
    data.add_todo("Walk dog".to_string()).unwrap();

    let todo = data.find_todo_by_id(2);
    assert!(todo.is_some());

    let todo = todo.unwrap();

    assert_eq!(todo.id, 2);
    assert_eq!(todo.title, "Walk dog");
}

#[test]
fn find_todo_by_id_not_found() {
    let mut data = JsonData::default();

    data.add_todo("Buy milk".to_string()).unwrap();
    data.add_todo("Walk dog".to_string()).unwrap();

    assert_eq!(data.find_todo_by_id(999), None);
    assert_eq!(JsonData::default().find_todo_by_id(1), None);
}

#[test]
fn complete_existing_todo() {
    let mut data = JsonData::default();

    let id = {
        let todo = data.add_todo("Cook lunch".to_string()).unwrap();
        todo.id
    };

    let todo = data.complete_todo(id);

    assert!(todo.is_some());

    let todo = todo.unwrap();

    assert!(todo.completed);
}

#[test]
fn models_complete_nonexisting_todo() {
    let mut data = JsonData::default();

    assert_eq!(data.complete_todo(420), None);
}

fn item(id: u32, title: &str, completed: bool) -> Todo {
    Todo {
        id,
        title: title.to_string(),
        completed,
    }
}

#[test]
fn add_todo_refuses_short_title_and_keeps_list() {
    let mut data = JsonData::default();
    data.add_todo("keep me".to_string()).unwrap();
    assert_eq!(
        data.add_todo("no".to_string()).err(),
        Some(TodoError::TitleInvalidLength(2))
    );
    assert_eq!(data.todos.len(), 1);
    // The refused title used no id.
    assert_eq!(data.add_todo("next one".to_string()).unwrap().id, 2);
}

#[test]
fn add_todo_takes_one_more_than_greatest_id() {
    let mut data = JsonData {
        todos: vec![item(7, "seven", false), item(3, "three", true)],
    };
    assert_eq!(data.next_id(), Some(8));
    let added = data.add_todo("eight".to_string()).unwrap();
    assert_eq!(added.id, 8);
    assert_eq!(data.todos.len(), 3);
    assert_eq!(data.todos[2], item(8, "eight", false));
}

#[test]
fn next_id_is_none_at_the_top_of_u32() {
    let data = JsonData {
        todos: vec![item(u32::MAX, "largest", false)],
    };
    assert_eq!(data.next_id(), None);
    assert_eq!(JsonData::default().next_id(), Some(1));
}

#[test]
fn added_item_is_found_by_its_id() {
    let mut data = JsonData {
        todos: vec![item(1, "first", false), item(5, "fifth", false)],
    };
    let id = data.add_todo("sixth".to_string()).unwrap().id;
    assert_eq!(data.find_todo_by_id(id), Some(&item(6, "sixth", false)));
}

#[test]
fn find_returns_the_first_of_equal_ids() {
    let data = JsonData {
        todos: vec![item(2, "earlier", false), item(2, "later", true)],
    };
    assert_eq!(data.find_todo_by_id(2), Some(&item(2, "earlier", false)));
}

#[test]
fn completed_item_is_found_completed() {
    let mut data = JsonData {
        todos: vec![item(1, "first", false), item(2, "second", false)],
    };
    assert_eq!(data.complete_todo(2), Some(&item(2, "second", true)));
    assert_eq!(data.find_todo_by_id(2), Some(&item(2, "second", true)));
    assert_eq!(data.todos[0], item(1, "first", false));
}

#[test]
fn edit_replaces_title_and_flag() {
    let mut data = JsonData {
        todos: vec![item(1, "first", false), item(2, "second", false)],
    };
    let edited = data
        .edit_todo(1, Some("renamed".to_string()), Some(true))
        .unwrap();
    assert_eq!(edited, &item(1, "renamed", true));
    assert_eq!(data.find_todo_by_id(1), Some(&item(1, "renamed", true)));
    assert_eq!(data.todos[1], item(2, "second", false));
}

#[test]
fn edit_with_only_flag_keeps_title() {
    let mut data = JsonData {
        todos: vec![item(1, "first", true)],
    };
    assert_eq!(data.edit_todo(1, None, Some(false)), Ok(&item(1, "first", false)));
    assert_eq!(data.edit_todo(1, None, None), Ok(&item(1, "first", false)));
}

#[test]
fn edit_of_missing_id_is_refused() {
    let mut data = JsonData {
        todos: vec![item(1, "first", false)],
    };
    assert_eq!(
        data.edit_todo(9, Some("renamed".to_string()), None),
        Err(JsonDataError::TodoNotFound(9))
    );
    assert_eq!(data.todos, vec![item(1, "first", false)]);
}

#[test]
fn edit_with_invalid_title_is_refused() {
    let mut data = JsonData {
        todos: vec![item(1, "first", false)],
    };
    assert_eq!(
        data.edit_todo(1, Some("x".repeat(201)), Some(true)),
        Err(JsonDataError::TodoError(TodoError::TitleInvalidLength(201)))
    );
    assert_eq!(data.todos, vec![item(1, "first", false)]);
}

#[test]
fn deleted_item_is_gone() {
    let mut data = JsonData {
        todos: vec![item(1, "first", false), item(2, "second", true), item(3, "third", false)],
    };
    assert_eq!(data.delete_todo(2), Some(item(2, "second", true)));
    assert_eq!(data.find_todo_by_id(2), None);
    assert_eq!(data.todos, vec![item(1, "first", false), item(3, "third", false)]);
    assert_eq!(data.delete_todo(2), None);
    assert_eq!(data.todos.len(), 2);
}

#[test]
fn render_of_extreme_ids() {
    assert_eq!(item(0, "zero", false).to_string(), "0 [ ] zero");
    assert_eq!(item(u32::MAX, "max", true).to_string(), "4294967295 [x] max");
    assert_eq!(item(10, "ten", false).to_string(), "10 [ ] ten");
}
