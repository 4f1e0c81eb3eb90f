//! A single-user todo-list manager: named lists of identifiable items, the
//! operations that create, edit and remove them, the JSON text a list is
//! stored as, and the decisions of an interactive shell around one list.

pub mod timestamp;
pub mod item;
pub mod list;
pub mod document;
pub mod shell;

pub use timestamp::Timestamp;
pub use item::TodoListItem;
pub use list::{IdAllocation, TodoList};
pub use shell::{TodoUi, UiAction};
