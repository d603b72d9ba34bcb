//! A shared list of things to do.

use vstd::prelude::*;
use crate::account::AccountId;
use crate::store::{Store, filed_below, lemma_filed_below_insert, lemma_filter_push};

verus! {

/// The identifier of an item.
pub type TodoItemId = i32;

/// How urgent an item is.
#[derive(Debug, Clone, Copy, PartialEq, Eq, Structural)]
pub enum Prioritise {
    HIGH,
    LOW,
    MEDIUM,
}

/// Why a call on the list is refused.
#[derive(Debug, Clone, Copy, PartialEq, Eq, Structural)]
pub enum TodoError {
    ItemNotExists,
}

/// A thing to do.
#[derive(Debug, PartialEq, Eq)]
pub struct TodoItem {
    pub owner: AccountId,
    pub item_name: String,
    pub is_completed: bool,
    pub priority: Prioritise,
}

impl Clone for TodoItem {
    fn clone(&self) -> (r: Self)
        ensures
            r == *self,
    {
        TodoItem {
            owner: self.owner,
            item_name: self.item_name.clone(),
            is_completed: self.is_completed,
            priority: self.priority,
        }
    }
}

/// Announces an item that was created.
#[derive(Debug, PartialEq, Eq)]
pub struct ItemCreated {
    pub item: TodoItem,
}

/// Announces an item that was completed.
#[derive(Debug, PartialEq, Eq)]
pub struct ItemUpdated {
    pub item: TodoItem,
}

/// A list of things to do, each with the account it belongs to.
pub struct TodoList {
    pub owner: AccountId,
    pub item: Store<TodoItemId, TodoItem>,
    /// The identifier that the next item gets.
    pub item_id: i32,
}

/// The identifier of the first item.
pub const FIRST_ITEM: TodoItemId = 1;

/// The item `item` as it is once `caller` has completed it: done, and the
/// caller's.
pub open spec fn completed_by(item: TodoItem, caller: AccountId) -> TodoItem {
    TodoItem {
        owner: caller,
        item_name: item.item_name,
        is_completed: true,
        priority: item.priority,
    }
}

impl TodoList {
    /// The items in the order of their identifiers.
    pub open spec fn all_items(&self) -> Seq<TodoItem> {
        filed_below(self.item@, self.item_id as int)
    }

    /// The state that every list is in: each item is filed under an identifier
    /// that the counter has handed out.
    pub open spec fn wf(&self) -> bool {
        &&& FIRST_ITEM <= self.item_id
        &&& forall|k: TodoItemId| #[trigger]
            self.item@.contains_key(k) ==> FIRST_ITEM <= k < self.item_id
    }

    /// An empty list of the owner `caller`.
    pub fn new(caller: AccountId) -> (list: Self)
        ensures
            list.owner == caller,
            list.item@ == Map::<TodoItemId, TodoItem>::empty(),
            list.item_id == FIRST_ITEM,
            list.wf(),
    {
        let owner = caller;
        TodoList { owner, item: Store::new(), item_id: FIRST_ITEM }
    }

    /// Enters an item of `caller`, not yet done, under the next identifier.
    pub fn create_todo(&mut self, caller: AccountId, item_name: String, priority: Prioritise) -> (r:
        Result<ItemCreated, TodoError>)
        requires
            old(self).item_id < i32::MAX,
        ensures
            ({
                let item = TodoItem { owner: caller, item_name, is_completed: false, priority };
                &&& r == Ok::<ItemCreated, TodoError>(ItemCreated { item })
                &&& final(self).item@ == old(self).item@.insert(old(self).item_id, item)
                &&& old(self).item_id >= 0 ==> final(self).all_items() == old(
                    self,
                ).all_items().push(item)
            }),
            final(self).item_id == old(self).item_id + 1,
            final(self).owner == old(self).owner,
            old(self).wf() ==> final(self).wf(),
    {
        let item_id = self.get_item_id();
        let item = TodoItem { owner: caller, item_name, is_completed: false, priority };
        self.item.insert(item_id, item.clone());
        proof {
            if item_id >= 0 {
                lemma_filed_below_insert(old(self).item@, item_id as int, item_id, item);
            }
        }
        Ok(ItemCreated { item })
    }

    /// Marks the item `item_id` as done and makes it `caller`'s.
    pub fn update_item(&mut self, caller: AccountId, item_id: TodoItemId) -> (r: Result<
        ItemUpdated,
        TodoError,
    >)
        ensures
            !old(self).item@.contains_key(item_id) ==> r == Err::<ItemUpdated, TodoError>(
                TodoError::ItemNotExists,
            ) && *final(self) == *old(self),
            old(self).item@.contains_key(item_id) ==> {
                let item = completed_by(old(self).item@[item_id], caller);
                &&& r == Ok::<ItemUpdated, TodoError>(ItemUpdated { item })
                &&& final(self).item@ == old(self).item@.insert(item_id, item)
                &&& final(self).item_id == old(self).item_id
                &&& final(self).owner == old(self).owner
            },
            old(self).wf() ==> final(self).wf(),
    {
        let item = match self.item.get(&item_id) {
            Some(value) => TodoItem {
                owner: caller,
                item_name: value.item_name.clone(),
                is_completed: true,
                priority: value.priority,
            },
            None => {
                return Err(TodoError::ItemNotExists);
            },
        };
        self.item.insert(item_id, item.clone());
        Ok(ItemUpdated { item })
    }

    /// The items of `account`, in the order of their identifiers.
    pub fn get_my_item(&self, account: AccountId) -> (item: Vec<TodoItem>)
        ensures
            item@ == self.all_items().filter(|i: TodoItem| i.owner == account),
    {
        let mut item: Vec<TodoItem> = Vec::new();
        let mut i: i32 = 0;
        while i < self.item_id
            invariant
                0 <= i,
                i <= self.item_id || i == 0,
                item@ == filed_below(self.item@, i as int).filter(
                    |i: TodoItem| i.owner == account,
                ),
            decreases self.item_id - i,
        {
            match self.item.get(&i) {
                Some(value) => {
                    proof {
                        lemma_filter_push(
                            filed_below(self.item@, i as int),
                            *value,
                            |i: TodoItem| i.owner == account,
                        );
                    }
                    if value.owner == account {
                        item.push(value.clone());
                    }
                },
                None => {},
            }
            i += 1;
        }
        item
    }

    /// Hands out the next item identifier.
    pub fn get_item_id(&mut self) -> (id: TodoItemId)
        requires
            old(self).item_id < i32::MAX,
        ensures
            id == old(self).item_id,
            final(self).item_id == old(self).item_id + 1,
            final(self).owner == old(self).owner,
            final(self).item == old(self).item,
    {
        let id = self.item_id;
        self.item_id += 1;
        id
    }
}

} // verus!
