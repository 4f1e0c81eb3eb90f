use vstd::prelude::*;
use crate::item::TodoListItem;
use crate::list::{
    TodoList, appended, edited_at, edited_first, first_index, is_first_with_id, lemma_first_index, marked,
    removed_first,
};

verus! {

/// What a front end holds between two user actions: the list being viewed,
/// if any, the other lists it knows, and the file last read or written.
pub struct TodoUi {
    pub loaded_list: Option<TodoList>,
    pub all_lists: Vec<TodoList>,
    pub current_path: Option<String>,
}

/// One user action, with the text the user entered for it, or the outcome of
/// the file work the front end did for it.
pub enum UiAction {
    /// A fresh empty list replaces the one being viewed.
    NewList,
    /// `list` was read from the file at `path`.
    Loaded { list: TodoList, path: String },
    /// The list being viewed was written to the file at `path`.
    Saved { path: String },
    /// The list being viewed gets the title `title`.
    Rename { title: String },
    /// An item is added to the list being viewed.
    AddItem { name: String, description: String },
    /// The first item of id `id` gets a new name and description.
    EditItem { id: usize, name: String, description: String },
    /// The first item of id `id` is removed.
    DeleteItem { id: usize },
    /// The item at `position` is marked completed or not.
    SetCompleted { position: usize, completed: bool },
}

/// The title of a list made by `UiAction::NewList`.
pub open spec fn new_list_title() -> Seq<char> {
    "New Todo List"@
}

/// `action` works on the list being viewed.
pub open spec fn edits_list(action: UiAction) -> bool {
    match action {
        UiAction::Rename { .. } => true,
        UiAction::AddItem { .. } => true,
        UiAction::EditItem { .. } => true,
        UiAction::DeleteItem { .. } => true,
        UiAction::SetCompleted { .. } => true,
        _ => false,
    }
}

/// `list` has what `action` works on: any list will do but for
/// `SetCompleted`, which needs an item at its position.
pub open spec fn applies_to(list: TodoList, action: UiAction) -> bool {
    match action {
        UiAction::SetCompleted { position, .. } => position < list.spec_items().len(),
        _ => true,
    }
}

/// `b` is `a` with the name `name` and the description `description`.
pub open spec fn retexted(a: TodoListItem, b: TodoListItem, name: Seq<char>, description: Seq<char>) -> bool {
    &&& b.spec_id() == a.spec_id()
    &&& b.spec_name() == name
    &&& b.spec_description() == description
    &&& b.spec_created() == a.spec_created()
    &&& b.spec_completed() == a.spec_completed()
}

/// `new` is the list `old` after the list action `action`.
pub open spec fn list_step(old: TodoList, new: TodoList, action: UiAction) -> bool {
    &&& new.spec_created() == old.spec_created()
    &&& match action {
        UiAction::Rename { title } => new.spec_title() == title@ && new.spec_items() == old.spec_items(),
        UiAction::AddItem { name, description } => new.spec_title() == old.spec_title()
            && appended(old.spec_items(), new.spec_items(), old.spec_items().len() as usize, name@, description@),
        UiAction::EditItem { id, name, description } => new.spec_title() == old.spec_title()
            && edited_first(old.spec_items(), new.spec_items(), id,
                |a: TodoListItem, b: TodoListItem| retexted(a, b, name@, description@)),
        UiAction::DeleteItem { id } => new.spec_title() == old.spec_title()
            && removed_first(old.spec_items(), new.spec_items(), id),
        UiAction::SetCompleted { position, completed } => new.spec_title() == old.spec_title()
            && edited_at(old.spec_items(), new.spec_items(), position as int,
                |a: TodoListItem, b: TodoListItem| marked(a, b, completed)),
        _ => false,
    }
}

/// Applies `action` to `list`.
fn step_list(list: &mut TodoList, action: UiAction) -> (applied: bool)
    requires
        edits_list(action),
    ensures
        applied == applies_to(*old(list), action),
        applied ==> list_step(*old(list), *final(list), action),
        !applied ==> *final(list) == *old(list),
{
    match action {
        UiAction::Rename { title } => {
            list.set_title(title);
            true
        },
        UiAction::AddItem { name, description } => {
            list.add(name, description);
            true
        },
        UiAction::EditItem { id, name, description } => {
            let ghost before = list.spec_items();
            proof {
                lemma_first_index(before, id);
            }
            list.change_item_name_by_id(name, id);
            let ghost mid = list.spec_items();
            proof {
                lemma_first_index(mid, id);
                let k = first_index(before, id);
                if k >= 0 {
                    assert forall|j: int| 0 <= j < mid.len() implies #[trigger] mid[j].spec_id() == before[j].spec_id() by {
                        if j != k {
                            assert(mid[j] == before[j]);
                        }
                    }
                    assert(is_first_with_id(mid, id, k));
                }
            }
            list.change_item_desc_by_id(description, id);
            true
        },
        UiAction::DeleteItem { id } => {
            list.remove_item(id);
            true
        },
        UiAction::SetCompleted { position, completed } => {
            if position < list.items().len() {
                list.set_completed_at(position, completed)
            } else {
                false
            }
        },
        _ => false,
    }
}

impl TodoUi {
    /// A front end with no list loaded, no other lists and no file.
    pub fn new() -> (r: TodoUi)
        ensures
            r.loaded_list is None,
            r.all_lists@.len() == 0,
            r.current_path is None,
    {
        TodoUi { loaded_list: None, all_lists: Vec::new(), current_path: None }
    }

    /// Takes in one user action, and says whether it had an effect. An action
    /// on the list being viewed has none while no list is loaded, and
    /// `SetCompleted` none for a position that holds no item; `Saved` has none
    /// while no list is loaded.
    pub fn apply(&mut self, action: UiAction) -> (applied: bool)
        ensures
            final(self).all_lists == old(self).all_lists,
            match action {
                UiAction::NewList => applied
                    && final(self).current_path == old(self).current_path
                    && (final(self).loaded_list matches Some(l)
                        && l.spec_title() == new_list_title() && l.spec_items().len() == 0),
                UiAction::Loaded { list, path } => applied
                    && final(self).loaded_list == Some(list)
                    && final(self).current_path == Some(path),
                UiAction::Saved { path } => applied == old(self).loaded_list is Some
                    && final(self).loaded_list == old(self).loaded_list
                    && final(self).current_path == (if applied { Some(path) } else { old(self).current_path }),
                _ => true,
            },
            edits_list(action) ==> {
                &&& applied == (old(self).loaded_list matches Some(l) && applies_to(l, action))
                &&& final(self).current_path == old(self).current_path
                &&& applied ==> (final(self).loaded_list matches Some(l)
                    && list_step(old(self).loaded_list.unwrap(), l, action))
                &&& !applied ==> final(self).loaded_list == old(self).loaded_list
            },
    {
        match action {
            UiAction::NewList => {
                self.loaded_list = Some(TodoList::new(String::from_str("New Todo List")));
                true
            },
            UiAction::Loaded { list, path } => {
                self.loaded_list = Some(list);
                self.current_path = Some(path);
                true
            },
            UiAction::Saved { path } => {
                if self.loaded_list.is_some() {
                    self.current_path = Some(path);
                    true
                } else {
                    false
                }
            },
            _ => {
                match &mut self.loaded_list {
                    Some(list) => step_list(list, action),
                    None => false,
                }
            },
        }
    }
}

} // verus!
