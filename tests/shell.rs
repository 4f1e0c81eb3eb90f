use todo_list::{Timestamp, TodoList, TodoListItem, TodoUi, UiAction};

fn loaded_ui() -> TodoUi {
    let mut ui = TodoUi::new();
    let item = TodoListItem::from_parts(0, String::from("a"), String::from("ad"), Timestamp::from_text(String::from("2024-01-01T00:00:00Z")).unwrap(), false);
    let list = TodoList::from_parts(String::from("mine"), vec![item], Timestamp::from_text(String::from("2024-01-01T00:00:00Z")).unwrap());
    assert!(ui.apply(UiAction::Loaded { list, path: String::from("/tmp/mine.json") }));
    ui
}

#[test]
fn shell_starts_empty() {
    let ui = TodoUi::new();
    assert!(ui.loaded_list.is_none());
    assert!(ui.all_lists.is_empty());
    assert!(ui.current_path.is_none());
}

#[test]
fn shell_new_list() {
    let mut ui = TodoUi::new();
    assert!(ui.apply(UiAction::NewList));
    let list = ui.loaded_list.as_ref().unwrap();
    assert_eq!(list.title, "New Todo List");
    assert_eq!(list.items.len(), 0);
}

#[test]
fn shell_actions_need_a_list() {
    let mut ui = TodoUi::new();
    assert!(!ui.apply(UiAction::Rename { title: String::from("x") }));
    assert!(!ui.apply(UiAction::AddItem { name: String::from("x"), description: String::from("y") }));
    assert!(!ui.apply(UiAction::DeleteItem { id: 0 }));
    assert!(!ui.apply(UiAction::Saved { path: String::from("/tmp/x.json") }));
    assert!(ui.loaded_list.is_none());
    assert!(ui.current_path.is_none());
}

#[test]
fn shell_load_and_save_set_path() {
    let mut ui = loaded_ui();
    assert_eq!(ui.current_path.as_deref(), Some("/tmp/mine.json"));
    assert!(ui.apply(UiAction::Saved { path: String::from("/tmp/other.json") }));
    assert_eq!(ui.current_path.as_deref(), Some("/tmp/other.json"));
}

#[test]
fn shell_edits_the_loaded_list() {
    let mut ui = loaded_ui();
    assert!(ui.apply(UiAction::Rename { title: String::from("renamed") }));
    assert!(ui.apply(UiAction::AddItem { name: String::from("b"), description: String::from("bd") }));
    assert!(ui.apply(UiAction::EditItem { id: 1, name: String::from("B"), description: String::from("BD") }));
    assert!(ui.apply(UiAction::SetCompleted { position: 0, completed: true }));
    assert!(!ui.apply(UiAction::SetCompleted { position: 2, completed: true }));
    let list = ui.loaded_list.as_ref().unwrap();
    assert_eq!(list.title, "renamed");
    assert_eq!(list.items.len(), 2);
    assert!(list.items[0].completed);
    assert_eq!(list.items[1].name, "B");
    assert_eq!(list.items[1].description, "BD");
    assert!(ui.apply(UiAction::DeleteItem { id: 0 }));
    assert_eq!(ui.loaded_list.as_ref().unwrap().items.len(), 1);
    assert_eq!(ui.loaded_list.as_ref().unwrap().items[0].name, "B");
}
