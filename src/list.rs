use vstd::prelude::*;
use crate::item::TodoListItem;
use crate::timestamp::{Timestamp, is_rfc3339_text};

verus! {

/// How a list picks the id of an item it adds.
pub enum IdAllocation {
    /// The number of items already in the list. After a removal this can
    /// repeat an id that another item still has.
    Positional,
    /// One more than the largest id in the list, or 1 when it is empty. The
    /// id is then never one that the list already holds.
    AfterMax,
}

/// A titled, ordered collection of items. The order of `items` is the order
/// in which they were added, and it is never re-sorted.
pub struct TodoList {
    pub title: String,
    pub items: Vec<TodoListItem>,
    date_created: Timestamp,
}

/// Some item of `items` has the id `id`.
pub open spec fn has_id(items: Seq<TodoListItem>, id: usize) -> bool {
    exists|i: int| 0 <= i < items.len() && #[trigger] items[i].spec_id() == id
}

/// `k` is the position of the first item of `items` whose id is `id`.
pub open spec fn is_first_with_id(items: Seq<TodoListItem>, id: usize, k: int) -> bool {
    &&& 0 <= k < items.len()
    &&& items[k].spec_id() == id
    &&& forall|j: int| 0 <= j < k ==> #[trigger] items[j].spec_id() != id
}

/// The position of the first item of `items` whose id is `id`, or -1.
pub open spec fn first_index(items: Seq<TodoListItem>, id: usize) -> int
    decreases items.len(),
{
    if items.len() == 0 {
        -1
    } else {
        let r = first_index(items.drop_last(), id);
        if r >= 0 {
            r
        } else if items.last().spec_id() == id {
            items.len() - 1
        } else {
            -1
        }
    }
}

/// The largest id in `items`, or 0 when there is none.
pub open spec fn max_id(items: Seq<TodoListItem>) -> nat
    decreases items.len(),
{
    if items.len() == 0 {
        0
    } else {
        let m = max_id(items.drop_last());
        if items.last().spec_id() > m {
            items.last().spec_id() as nat
        } else {
            m
        }
    }
}

/// The id that `strategy` gives an item added after `items`; none where the
/// largest id leaves no room above it.
pub open spec fn next_id_of(items: Seq<TodoListItem>, strategy: IdAllocation) -> Option<usize> {
    match strategy {
        IdAllocation::Positional => Some(items.len() as usize),
        IdAllocation::AfterMax => if max_id(items) < usize::MAX {
            Some((max_id(items) + 1) as usize)
        } else {
            None
        },
    }
}

/// `new` is `old` with one more item at its end: id `id`, name `name`,
/// description `description`, not completed.
pub open spec fn appended(
    old: Seq<TodoListItem>,
    new: Seq<TodoListItem>,
    id: usize,
    name: Seq<char>,
    description: Seq<char>,
) -> bool {
    &&& new.len() == old.len() + 1
    &&& new.drop_last() == old
    &&& new.last().spec_id() == id
    &&& new.last().spec_name() == name
    &&& new.last().spec_description() == description
    &&& !new.last().spec_completed()
}

/// `new` is `old` without its first item of id `id`; `old` itself when no
/// item has that id.
pub open spec fn removed_first(old: Seq<TodoListItem>, new: Seq<TodoListItem>, id: usize) -> bool {
    if first_index(old, id) >= 0 {
        new == old.remove(first_index(old, id))
    } else {
        new == old
    }
}

/// `new` is `old` with the item at `k` changed as `edited` says and every
/// other item kept.
pub open spec fn edited_at(
    old: Seq<TodoListItem>,
    new: Seq<TodoListItem>,
    k: int,
    edited: spec_fn(TodoListItem, TodoListItem) -> bool,
) -> bool {
    &&& new.len() == old.len()
    &&& edited(old[k], new[k])
    &&& forall|j: int| 0 <= j < old.len() && j != k ==> new[j] == old[j]
}

/// `new` is `old` with the first item of id `id` changed as `edited` says;
/// `old` itself when no item has that id.
pub open spec fn edited_first(
    old: Seq<TodoListItem>,
    new: Seq<TodoListItem>,
    id: usize,
    edited: spec_fn(TodoListItem, TodoListItem) -> bool,
) -> bool {
    if first_index(old, id) >= 0 {
        edited_at(old, new, first_index(old, id), edited)
    } else {
        new == old
    }
}

/// `b` is `a` with the name `name`.
pub open spec fn renamed(a: TodoListItem, b: TodoListItem, name: Seq<char>) -> bool {
    &&& b.spec_id() == a.spec_id()
    &&& b.spec_name() == name
    &&& b.spec_description() == a.spec_description()
    &&& b.spec_created() == a.spec_created()
    &&& b.spec_completed() == a.spec_completed()
}

/// `b` is `a` with the description `description`.
pub open spec fn redescribed(a: TodoListItem, b: TodoListItem, description: Seq<char>) -> bool {
    &&& b.spec_id() == a.spec_id()
    &&& b.spec_name() == a.spec_name()
    &&& b.spec_description() == description
    &&& b.spec_created() == a.spec_created()
    &&& b.spec_completed() == a.spec_completed()
}

/// `b` is `a` with the completion flag `completed`.
pub open spec fn marked(a: TodoListItem, b: TodoListItem, completed: bool) -> bool {
    &&& b.spec_id() == a.spec_id()
    &&& b.spec_name() == a.spec_name()
    &&& b.spec_description() == a.spec_description()
    &&& b.spec_created() == a.spec_created()
    &&& b.spec_completed() == completed
}

/// What `first_index` is: -1 exactly when no item has the id, and otherwise
/// the position of the first item that has it.
pub proof fn lemma_first_index(items: Seq<TodoListItem>, id: usize)
    ensures
        -1 <= first_index(items, id) < items.len(),
        first_index(items, id) == -1 <==> !has_id(items, id),
        first_index(items, id) >= 0 ==> is_first_with_id(items, id, first_index(items, id)),
        forall|k: int| is_first_with_id(items, id, k) ==> first_index(items, id) == k,
    decreases items.len(),
{
    if items.len() > 0 {
        let p = items.drop_last();
        lemma_first_index(p, id);
        let f = first_index(items, id);
        let g = first_index(p, id);
        assert forall|j: int| 0 <= j < p.len() implies items[j] == #[trigger] p[j] by {}
        if g >= 0 {
            assert(items[g] == p[g]);
            assert forall|j: int| 0 <= j < g implies #[trigger] items[j].spec_id() != id by {
                assert(items[j] == p[j]);
            }
            assert(is_first_with_id(items, id, f));
        } else if items.last().spec_id() == id {
            assert forall|j: int| 0 <= j < items.len() - 1 implies #[trigger] items[j].spec_id() != id by {
                assert(items[j] == p[j]);
                if p[j].spec_id() == id {
                    assert(has_id(p, id));
                }
            }
            assert(items[items.len() - 1].spec_id() == id);
            assert(is_first_with_id(items, id, f));
        } else {
            assert forall|i: int| 0 <= i < items.len() implies #[trigger] items[i].spec_id() != id by {
                if i < p.len() {
                    assert(items[i] == p[i]);
                    if p[i].spec_id() == id {
                        assert(has_id(p, id));
                    }
                }
            }
        }
        assert forall|k: int| is_first_with_id(items, id, k) implies f == k by {
            assert(items[k].spec_id() == id);
            assert(has_id(items, id));
            if f < k {
                assert(items[f].spec_id() == id);
            } else if k < f {
                assert(items[k].spec_id() == id);
            }
        }
    }
}

/// No id in `items` exceeds `max_id(items)`.
pub proof fn lemma_max_id(items: Seq<TodoListItem>)
    ensures
        forall|i: int| 0 <= i < items.len() ==> #[trigger] items[i].spec_id() <= max_id(items),
    decreases items.len(),
{
    if items.len() > 0 {
        let p = items.drop_last();
        lemma_max_id(p);
        assert forall|i: int| 0 <= i < items.len() implies #[trigger] items[i].spec_id() <= max_id(items) by {
            if i < p.len() {
                assert(p[i] == items[i]);
            }
        }
    }
}

/// Adding an item never shortens the list, and looking up the id it was
/// given then finds an item with that id: the new item itself wherever no
/// earlier item already had that id.
pub proof fn law_add_then_find(
    old: Seq<TodoListItem>,
    new: Seq<TodoListItem>,
    id: usize,
    name: Seq<char>,
    description: Seq<char>,
)
    requires
        appended(old, new, id, name, description),
    ensures
        new.len() >= old.len(),
        has_id(new, id),
        0 <= first_index(new, id) < new.len(),
        new[first_index(new, id)].spec_id() == id,
        !has_id(old, id) ==> first_index(new, id) == old.len(),
        !has_id(old, id) ==> new[first_index(new, id)] == new.last(),
{
    assert(new[new.len() - 1].spec_id() == id);
    lemma_first_index(new, id);
    if !has_id(old, id) {
        assert forall|j: int| 0 <= j < old.len() implies #[trigger] new[j].spec_id() != id by {
            assert(new.drop_last()[j] == new[j]);
            if old[j].spec_id() == id {
                assert(has_id(old, id));
            }
        }
        assert(is_first_with_id(new, id, old.len() as int));
    }
}

/// The id that `AfterMax` picks is held by no item of the list.
pub proof fn law_after_max_is_fresh(items: Seq<TodoListItem>)
    ensures
        next_id_of(items, IdAllocation::AfterMax) matches Some(id) ==> !has_id(items, id),
{
    lemma_max_id(items);
}

/// Removing an id that no item has leaves the items as they were.
pub proof fn law_remove_absent(old: Seq<TodoListItem>, new: Seq<TodoListItem>, id: usize)
    requires
        removed_first(old, new, id),
        !has_id(old, id),
    ensures
        new == old,
{
    lemma_first_index(old, id);
}

/// Removing an id that one or more items have takes out exactly one item, the
/// first of them, and keeps the others in their order.
pub proof fn law_remove_present(old: Seq<TodoListItem>, new: Seq<TodoListItem>, id: usize)
    requires
        removed_first(old, new, id),
        has_id(old, id),
    ensures
        new.len() == old.len() - 1,
        is_first_with_id(old, id, first_index(old, id)),
        forall|j: int| 0 <= j < first_index(old, id) ==> new[j] == old[j],
        forall|j: int| first_index(old, id) <= j < new.len() ==> new[j] == old[j + 1],
{
    lemma_first_index(old, id);
}

impl TodoList {
    /// The list's title.
    pub closed spec fn spec_title(&self) -> Seq<char> {
        self.title@
    }

    /// The list's items, in order.
    pub closed spec fn spec_items(&self) -> Seq<TodoListItem> {
        self.items@
    }

    /// The RFC 3339 text of the list's creation time.
    pub closed spec fn spec_created(&self) -> Seq<char> {
        self.date_created@
    }

    /// The list's title.
    pub fn title(&self) -> (r: &String)
        ensures
            r@ == self.spec_title(),
    {
        &self.title
    }

    /// The list's items, in order.
    pub fn items(&self) -> (r: &Vec<TodoListItem>)
        ensures
            r@ == self.spec_items(),
    {
        &self.items
    }

    /// Gives the list the title `title`; its items and creation time stay.
    pub fn set_title(&mut self, title: String)
        ensures
            final(self).spec_title() == title@,
            final(self).spec_items() == old(self).spec_items(),
            final(self).spec_created() == old(self).spec_created(),
    {
        self.title = title;
    }

    /// Marks the item at `position` completed or not, and says whether there
    /// was one; the other items, the title and creation time stay.
    pub fn set_completed_at(&mut self, position: usize, completed: bool) -> (r: bool)
        ensures
            r == (position < old(self).spec_items().len()),
            r ==> edited_at(old(self).spec_items(), final(self).spec_items(), position as int,
                |a: TodoListItem, b: TodoListItem| marked(a, b, completed)),
            !r ==> final(self).spec_items() == old(self).spec_items(),
            final(self).spec_title() == old(self).spec_title(),
            final(self).spec_created() == old(self).spec_created(),
    {
        if position < self.items.len() {
            self.items[position].set_completed(completed);
            true
        } else {
            false
        }
    }
    /// An empty list titled `title`, created now.
    pub fn new(title: String) -> (r: TodoList)
        ensures
            r.spec_title() == title@,
            r.spec_items().len() == 0,
            is_rfc3339_text(r.spec_created()),
    {
        let items: Vec<TodoListItem> = Vec::new();
        TodoList { title, items, date_created: Timestamp::now() }
    }

    /// A list with every field given, as when it is read back from storage.
    pub fn from_parts(title: String, items: Vec<TodoListItem>, date_created: Timestamp) -> (r: TodoList)
        ensures
            r.spec_title() == title@,
            r.spec_items() == items@,
            r.spec_created() == date_created@,
    {
        TodoList { title, items, date_created }
    }

    /// When the list was created.
    pub fn date_created(&self) -> (r: &Timestamp)
        ensures
            r@ == self.spec_created(),
    {
        &self.date_created
    }

    /// The position of the first item whose id is `id`, if any.
    pub fn position_of(&self, id: usize) -> (r: Option<usize>)
        ensures
            match r {
                Some(k) => k == first_index(self.spec_items(), id),
                None => first_index(self.spec_items(), id) == -1,
            },
    {
        proof {
            lemma_first_index(self.spec_items(), id);
        }
        let n = self.items.len();
        let mut i: usize = 0;
        while i < n
            invariant
                n == self.spec_items().len(),
                i <= n,
                forall|j: int| 0 <= j < i ==> #[trigger] self.spec_items()[j].spec_id() != id,
                forall|k: int| is_first_with_id(self.spec_items(), id, k) ==> first_index(self.spec_items(), id) == k,
                first_index(self.spec_items(), id) == -1 <==> !has_id(self.spec_items(), id),
            decreases n - i,
        {
            if self.items[i].id() == id {
                assert(is_first_with_id(self.spec_items(), id, i as int));
                return Some(i);
            }
            i = i + 1;
        }
        None
    }

    /// The id that `strategy` gives the next item added to this list.
    pub fn next_id(&self, strategy: IdAllocation) -> (r: Option<usize>)
        ensures
            r == next_id_of(self.spec_items(), strategy),
    {
        match strategy {
            IdAllocation::Positional => Some(self.items.len()),
            IdAllocation::AfterMax => {
                let n = self.items.len();
                let mut m: usize = 0;
                let mut i: usize = 0;
                while i < n
                    invariant
                        n == self.spec_items().len(),
                        i <= n,
                        m == max_id(self.spec_items().subrange(0, i as int)),
                    decreases n - i,
                {
                    let ghost before = self.spec_items().subrange(0, i as int);
                    assert(self.spec_items().subrange(0, i + 1).drop_last() =~= before);
                    let id = self.items[i].id();
                    if id > m {
                        m = id;
                    }
                    i = i + 1;
                }
                assert(self.spec_items().subrange(0, n as int) =~= self.spec_items());
                if m < usize::MAX {
                    Some(m + 1)
                } else {
                    None
                }
            },
        }
    }

    /// Adds an item named `name` with description `description` at the end,
    /// under the id that `strategy` gives, and returns that id. Where the
    /// strategy gives none, the list is left as it is.
    pub fn add_with(&mut self, strategy: IdAllocation, name: String, description: String) -> (r: Option<usize>)
        ensures
            r == next_id_of(old(self).spec_items(), strategy),
            match r {
                Some(id) => appended(old(self).spec_items(), final(self).spec_items(), id, name@, description@),
                None => final(self).spec_items() == old(self).spec_items(),
            },
            final(self).spec_title() == old(self).spec_title(),
            final(self).spec_created() == old(self).spec_created(),
    {
        let r = self.next_id(strategy);
        if let Some(id) = r {
            let item = TodoListItem::new(id, name, description);
            self.items.push(item);
            assert(self.spec_items().drop_last() =~= old(self).spec_items());
        }
        r
    }

    /// Adds an item named `name` with description `description` at the end.
    /// Its id is the number of items the list held before.
    pub fn add(&mut self, name: String, description: String)
        ensures
            appended(old(self).spec_items(), final(self).spec_items(), old(self).spec_items().len() as usize, name@, description@),
            final(self).spec_title() == old(self).spec_title(),
            final(self).spec_created() == old(self).spec_created(),
    {
        let _ = self.add_with(IdAllocation::Positional, name, description);
    }

    /// Removes every item; the title and creation time stay.
    pub fn clear_list(&mut self)
        ensures
            final(self).spec_items().len() == 0,
            final(self).spec_title() == old(self).spec_title(),
            final(self).spec_created() == old(self).spec_created(),
    {
        self.items = Vec::new();
    }

    /// The first item whose id is `id`, if any.
    pub fn get_item_by_id(&self, id: usize) -> (r: Option<&TodoListItem>)
        ensures
            r is None <==> !has_id(self.spec_items(), id),
            match r {
                Some(item) => first_index(self.spec_items(), id) >= 0
                    && *item == self.spec_items()[first_index(self.spec_items(), id)],
                None => first_index(self.spec_items(), id) == -1,
            },
    {
        proof {
            lemma_first_index(self.spec_items(), id);
        }
        match self.position_of(id) {
            Some(k) => Some(&self.items[k]),
            None => None,
        }
    }

    /// Gives the first item whose id is `id` the name `name`; does nothing
    /// when no item has that id.
    pub fn change_item_name_by_id(&mut self, name: String, id: usize)
        ensures
            edited_first(old(self).spec_items(), final(self).spec_items(), id, |a: TodoListItem, b: TodoListItem| renamed(a, b, name@)),
            final(self).spec_title() == old(self).spec_title(),
            final(self).spec_created() == old(self).spec_created(),
    {
        proof {
            lemma_first_index(self.spec_items(), id);
        }
        if let Some(k) = self.position_of(id) {
            self.items[k].set_name(name);
        }
    }

    /// Gives the first item whose id is `id` the description `desc`; does
    /// nothing when no item has that id.
    pub fn change_item_desc_by_id(&mut self, desc: String, id: usize)
        ensures
            edited_first(old(self).spec_items(), final(self).spec_items(), id, |a: TodoListItem, b: TodoListItem| redescribed(a, b, desc@)),
            final(self).spec_title() == old(self).spec_title(),
            final(self).spec_created() == old(self).spec_created(),
    {
        proof {
            lemma_first_index(self.spec_items(), id);
        }
        if let Some(k) = self.position_of(id) {
            self.items[k].set_description(desc);
        }
    }

    /// Removes the first item whose id is `id`, the later ones moving down by
    /// one; does nothing when no item has that id.
    pub fn remove_item(&mut self, id: usize)
        ensures
            removed_first(old(self).spec_items(), final(self).spec_items(), id),
            final(self).spec_title() == old(self).spec_title(),
            final(self).spec_created() == old(self).spec_created(),
    {
        proof {
            lemma_first_index(self.spec_items(), id);
        }
        if let Some(k) = self.position_of(id) {
            self.items.remove(k);
        }
    }
}

} // verus!
