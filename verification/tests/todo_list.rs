use dapp_contracts::account::AccountId;
use dapp_contracts::todo_list::{
    ItemCreated, ItemUpdated, Prioritise, TodoError, TodoItem, TodoList,
};

fn alice() -> AccountId {
    AccountId::new([1u8; 32])
}

fn bob() -> AccountId {
    AccountId::new([2u8; 32])
}

fn item(owner: AccountId, name: &str, done: bool, priority: Prioritise) -> TodoItem {
    TodoItem { owner, item_name: name.to_string(), is_completed: done, priority }
}

#[test]
fn todo_list_starts_at_identifier_one() {
    let list = TodoList::new(alice());
    assert_eq!(list.owner, alice());
    assert_eq!(list.item_id, 1);
    assert!(list.get_my_item(alice()).is_empty());
}

#[test]
fn create_todo_files_the_item() {
    let mut list = TodoList::new(alice());
    assert_eq!(
        list.create_todo(bob(), "milk".to_string(), Prioritise::LOW),
        Ok(ItemCreated { item: item(bob(), "milk", false, Prioritise::LOW) })
    );
    assert_eq!(list.item_id, 2);
    assert_eq!(list.item.get(&1), Some(&item(bob(), "milk", false, Prioritise::LOW)));
    assert_eq!(list.item.get(&0), None);
    assert_eq!(list.item.get(&2), None);
}

#[test]
fn update_item_completes_and_takes_over() {
    let mut list = TodoList::new(alice());
    list.create_todo(bob(), "milk".to_string(), Prioritise::HIGH).unwrap();
    assert_eq!(
        list.update_item(alice(), 1),
        Ok(ItemUpdated { item: item(alice(), "milk", true, Prioritise::HIGH) })
    );
    assert_eq!(list.get_my_item(alice()), vec![item(alice(), "milk", true, Prioritise::HIGH)]);
    assert!(list.get_my_item(bob()).is_empty());
    assert_eq!(list.item_id, 2);
}

#[test]
fn update_item_refuses_a_missing_item() {
    let mut list = TodoList::new(alice());
    assert_eq!(list.update_item(alice(), 1), Err(TodoError::ItemNotExists));
    list.create_todo(alice(), "milk".to_string(), Prioritise::MEDIUM).unwrap();
    assert_eq!(list.update_item(alice(), 0), Err(TodoError::ItemNotExists));
    assert_eq!(list.update_item(alice(), 2), Err(TodoError::ItemNotExists));
    assert_eq!(list.update_item(alice(), -1), Err(TodoError::ItemNotExists));
    assert_eq!(list.get_my_item(alice()), vec![item(alice(), "milk", false, Prioritise::MEDIUM)]);
}

#[test]
fn get_my_item_keeps_the_order_of_identifiers() {
    let mut list = TodoList::new(alice());
    list.create_todo(alice(), "a".to_string(), Prioritise::LOW).unwrap();
    list.create_todo(bob(), "b".to_string(), Prioritise::LOW).unwrap();
    list.create_todo(alice(), "c".to_string(), Prioritise::HIGH).unwrap();
    assert_eq!(list.get_item_id(), 4);
    list.create_todo(alice(), "e".to_string(), Prioritise::MEDIUM).unwrap();
    assert_eq!(
        list.get_my_item(alice()),
        vec![
            item(alice(), "a", false, Prioritise::LOW),
            item(alice(), "c", false, Prioritise::HIGH),
            item(alice(), "e", false, Prioritise::MEDIUM),
        ]
    );
    assert_eq!(list.get_my_item(bob()), vec![item(bob(), "b", false, Prioritise::LOW)]);
    assert_eq!(list.item_id, 6);
}
