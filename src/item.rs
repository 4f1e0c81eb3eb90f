use vstd::prelude::*;
use crate::timestamp::{Timestamp, is_rfc3339_text};

verus! {

/// One unit of work. Its id and creation time are fixed when it is made; its
/// name, description and completion flag are edited in place by its owner.
pub struct TodoListItem {
    id: usize,
    pub name: String,
    pub description: String,
    date_created: Timestamp,
    pub completed: bool,
}

impl TodoListItem {
    /// The item's id.
    pub closed spec fn spec_id(&self) -> usize {
        self.id
    }

    /// The item's name.
    pub closed spec fn spec_name(&self) -> Seq<char> {
        self.name@
    }

    /// The item's description.
    pub closed spec fn spec_description(&self) -> Seq<char> {
        self.description@
    }

    /// The RFC 3339 text of the item's creation time.
    pub closed spec fn spec_created(&self) -> Seq<char> {
        self.date_created@
    }

    /// Whether the item is completed.
    pub closed spec fn spec_completed(&self) -> bool {
        self.completed
    }

    /// A new item, not completed, created now.
    pub fn new(id: usize, name: String, description: String) -> (r: TodoListItem)
        ensures
            r.spec_id() == id,
            r.spec_name() == name@,
            r.spec_description() == description@,
            !r.spec_completed(),
            is_rfc3339_text(r.spec_created()),
    {
        TodoListItem { id, name, description, date_created: Timestamp::now(), completed: false }
    }

    /// An item with every field given, as when it is read back from storage.
    pub fn from_parts(
        id: usize,
        name: String,
        description: String,
        date_created: Timestamp,
        completed: bool,
    ) -> (r: TodoListItem)
        ensures
            r.spec_id() == id,
            r.spec_name() == name@,
            r.spec_description() == description@,
            r.spec_created() == date_created@,
            r.spec_completed() == completed,
    {
        TodoListItem { id, name, description, date_created, completed }
    }

    /// When the item was created.
    pub fn date_created(&self) -> (r: &Timestamp)
        ensures
            r@ == self.spec_created(),
    {
        &self.date_created
    }

    /// The item's id.
    pub fn id(&self) -> (r: usize)
        ensures
            r == self.spec_id(),
    {
        self.id
    }

    /// The item's name.
    pub fn name(&self) -> (r: &String)
        ensures
            r@ == self.spec_name(),
    {
        &self.name
    }

    /// The item's description.
    pub fn description(&self) -> (r: &String)
        ensures
            r@ == self.spec_description(),
    {
        &self.description
    }

    /// Whether the item is completed.
    pub fn completed(&self) -> (r: bool)
        ensures
            r == self.spec_completed(),
    {
        self.completed
    }

    /// Gives the item the name `name`; all else stays.
    pub fn set_name(&mut self, name: String)
        ensures
            final(self).spec_name() == name@,
            final(self).spec_id() == old(self).spec_id(),
            final(self).spec_description() == old(self).spec_description(),
            final(self).spec_created() == old(self).spec_created(),
            final(self).spec_completed() == old(self).spec_completed(),
    {
        self.name = name;
    }

    /// Gives the item the description `description`; all else stays.
    pub fn set_description(&mut self, description: String)
        ensures
            final(self).spec_description() == description@,
            final(self).spec_id() == old(self).spec_id(),
            final(self).spec_name() == old(self).spec_name(),
            final(self).spec_created() == old(self).spec_created(),
            final(self).spec_completed() == old(self).spec_completed(),
    {
        self.description = description;
    }

    /// Marks the item completed or not; all else stays.
    pub fn set_completed(&mut self, completed: bool)
        ensures
            final(self).spec_completed() == completed,
            final(self).spec_id() == old(self).spec_id(),
            final(self).spec_name() == old(self).spec_name(),
            final(self).spec_description() == old(self).spec_description(),
            final(self).spec_created() == old(self).spec_created(),
    {
        self.completed = completed;
    }
}

} // verus!
