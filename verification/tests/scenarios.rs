use todo_store::{Todo, TodoError, TodoLists};

fn owned(value: &str) -> String {
    value.to_string()
}

#[test]
fn alice_creates_updates_and_deletes_one_item() {
    let mut store = TodoLists::new();
    let alice = owned("alice");

    store.create_todo_x(&alice, &owned("buy milk"), &owned("2%"));
    assert_eq!(
        store.get_todos(&alice),
        Ok(&vec![Todo { title: owned("buy milk"), disc: owned("2%"), done: false }])
    );

    assert_eq!(store.update_todo_x(&alice, 0, &owned("buy oat milk"), &owned("2%"), true), Ok(()));
    assert_eq!(
        store.get_todos(&alice),
        Ok(&vec![Todo { title: owned("buy oat milk"), disc: owned("2%"), done: true }])
    );

    assert_eq!(
        store.delete_todo_x(&alice, 0),
        Ok(Todo { title: owned("buy oat milk"), disc: owned("2%"), done: true })
    );
    assert_eq!(store.get_todos(&alice), Ok(&vec![]));
}

#[test]
fn bob_is_unknown_before_his_first_create() {
    let mut store = TodoLists::new();
    let bob = owned("bob");
    assert_eq!(store.get_todos(&bob), Err(TodoError::UserNotFound { user_id: owned("bob") }));

    store.create_todo_x(&owned("alice"), &owned("buy milk"), &owned("2%"));
    assert_eq!(store.get_todos(&bob), Err(TodoError::UserNotFound { user_id: owned("bob") }));

    store.create_todo_x(&bob, &owned("walk"), &owned(""));
    assert_eq!(
        store.get_todos(&bob),
        Ok(&vec![Todo { title: owned("walk"), disc: owned(""), done: false }])
    );
}
