use todo_rs::app::{App, AppError};
use todo_rs::models::{JsonData, JsonDataError, Todo, TodoError};

fn app_with(todos: Vec<Todo>) -> App {
    App::new(JsonData { todos }, String::new())
}

#[test]
fn list_empty_store() {
    let mut app = app_with(Vec::new());

    app.list().unwrap();

    assert!(app.writer().is_empty());
}

#[test]
fn list_nonempty_store() {
    let mut app = app_with(vec![
        Todo::try_new(1, "test".to_string(), false).unwrap(),
        Todo::try_new(2, "test 2".to_string(), true).unwrap(),
    ]);

    app.list().unwrap();

    assert_eq!(app.writer().as_str(), "1 [ ] test\n2 [x] test 2\n");
}

#[test]
fn get_existing_todo() {
    let mut app = app_with(vec![Todo::try_new(1, "test".to_string(), false).unwrap()]);

    app.get(1).unwrap();

    assert_eq!(app.writer().as_str(), "1 [ ] test\n");
}

#[test]
fn get_nonexisting_todo() {
    let mut app = app_with(Vec::new());

    assert!(matches!(app.get(420), Err(AppError::TodoNotFound)));
}

#[test]
fn add_todo() {
    let mut app = app_with(Vec::new());

    app.add("Test Todo".to_string()).unwrap();

    assert_eq!(app.writer().as_str(), "Saved todo: Test Todo!\n");
}

#[test]
fn edit_todo() {
    let mut app = app_with(vec![
        Todo::try_new(1, "test".to_string(), false).expect("Todo should be valid"),
    ]);

    app.edit(1, Some("edited todo".to_string()), None).unwrap();

    assert_eq!(app.writer().as_str(), "Todo updated successfully!\n");
}

#[test]
fn complete_todo() {
    let mut app = app_with(vec![
        Todo::try_new(1, "test".to_string(), false).expect("Todo should be valid"),
    ]);

    app.complete(1).unwrap();

    assert_eq!(app.writer().as_str(), "Todo completed successfully!\n");
}

#[test]
fn app_complete_nonexisting_todo() {
    let mut app = app_with(Vec::new());

    assert!(matches!(app.complete(420), Err(AppError::TodoNotFound)));
}

fn item(id: u32, title: &str, completed: bool) -> Todo {
    Todo {
        id,
        title: title.to_string(),
        completed,
    }
}

#[test]
fn only_changes_are_owed_a_save() {
    let mut app = app_with(vec![item(1, "first", false)]);
    assert!(!app.needs_write());
    app.list().unwrap();
    app.get(1).unwrap();
    assert!(app.get(2).is_err());
    assert!(app.complete(2).is_err());
    assert!(app.delete(2).is_err());
    assert!(app.add("no".to_string()).is_err());
    assert!(!app.needs_write());
    app.complete(1).unwrap();
    assert!(app.needs_write());
}

#[test]
fn refused_commands_write_nothing() {
    let mut app = app_with(vec![item(1, "first", false)]);
    assert_eq!(
        app.add("abc".to_string()),
        Err(AppError::TodoError(TodoError::TitleInvalidLength(3)))
    );
    assert_eq!(
        app.edit(7, None, Some(true)),
        Err(AppError::JsonDataError(JsonDataError::TodoNotFound(7)))
    );
    assert_eq!(
        app.edit(1, Some("".to_string()), None),
        Err(AppError::JsonDataError(JsonDataError::TodoError(
            TodoError::TitleInvalidLength(0)
        )))
    );
    assert_eq!(app.delete(3), Err(AppError::TodoNotFound));
    assert!(app.writer().is_empty());
    assert_eq!(app.data().todos, vec![item(1, "first", false)]);
}

#[test]
fn add_then_get_shows_new_item() {
    let mut app = app_with(vec![item(4, "four", true)]);
    app.add("Test Todo".to_string()).unwrap();
    app.get(5).unwrap();
    assert_eq!(
        app.writer().as_str(),
        "Saved todo: Test Todo!\n5 [ ] Test Todo\n"
    );
    assert!(app.needs_write());
}

#[test]
fn delete_then_get_fails() {
    let mut app = app_with(vec![item(1, "first", false), item(2, "second", false)]);
    app.delete(1).unwrap();
    assert_eq!(app.writer().as_str(), "Todo deleted successfully!\n");
    assert_eq!(app.get(1), Err(AppError::TodoNotFound));
    assert_eq!(app.data().todos, vec![item(2, "second", false)]);
}

#[test]
fn list_completed_shows_completed_only() {
    let mut app = app_with(vec![
        item(1, "first", false),
        item(2, "second", true),
        item(3, "third", true),
    ]);
    app.list_completed().unwrap();
    assert_eq!(app.writer().as_str(), "2 [x] second\n3 [x] third\n");
}

#[test]
fn edit_then_list_shows_edit() {
    let mut app = app_with(vec![item(1, "first", false), item(2, "second", false)]);
    app.edit(2, Some("renamed".to_string()), Some(true)).unwrap();
    app.list().unwrap();
    assert_eq!(
        app.writer().as_str(),
        "Todo updated successfully!\n1 [ ] first\n2 [x] renamed\n"
    );
}

#[test]
fn output_appends_to_given_writer() {
    let mut app = App::new(JsonData::default(), "before\n".to_string());
    app.list().unwrap();
    app.add("after item".to_string()).unwrap();
    assert_eq!(app.writer().as_str(), "before\nSaved todo: after item!\n");
}
