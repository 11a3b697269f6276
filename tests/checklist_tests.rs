use tasklist::checklist::{list_path, stored_list_path, Todo, TodoList};

fn entry(id: i16, text: &str, done: bool) -> Todo {
    Todo { id, item: text.to_string(), priority: 0, tags: vec![], done }
}

#[test]
fn new_list_is_empty() {
    let list = TodoList::new("groceries".to_string());
    assert_eq!(list.name, "groceries");
    assert_eq!(list.total(), 0);
    assert_eq!(list.completed(), 0);
}

#[test]
fn completed_counts_done_entries() {
    let mut list = TodoList::new("l".to_string());
    list.todos.push(entry(1, "a", true));
    list.todos.push(entry(2, "b", false));
    list.todos.push(entry(3, "c", true));
    assert_eq!(list.completed(), 2);
    assert_eq!(list.total(), 3);
}

#[test]
fn toggle_flips_done_only() {
    let mut t = Todo { id: 7, item: "x".to_string(), priority: 3, tags: vec!["home".to_string()], done: false };
    t.toggle();
    assert!(t.done);
    assert_eq!(t.id, 7);
    assert_eq!(t.item, "x");
    assert_eq!(t.priority, 3);
    assert_eq!(t.tags, vec!["home".to_string()]);
    t.toggle();
    assert!(!t.done);
}

#[test]
fn counter_and_summary() {
    let mut list = TodoList::new("work".to_string());
    for i in 0..12 {
        list.todos.push(entry(i, "t", i % 3 == 0));
    }
    assert_eq!(list.counter(), "4/12");
    assert_eq!(list.summary(), "work: 4/12");
    assert_eq!(TodoList::new("e".to_string()).summary(), "e: 0/0");
}

#[test]
fn next_id_is_one_past_the_largest() {
    let mut list = TodoList::new("l".to_string());
    assert_eq!(list.next_id(), 1);
    list.todos.push(entry(5, "a", false));
    list.todos.push(entry(2, "b", false));
    assert_eq!(list.next_id(), 6);
    list.todos.push(entry(i16::MAX, "c", false));
    assert_eq!(list.next_id(), i16::MAX);
}

#[test]
fn paths_of_stored_lists() {
    assert_eq!(list_path("/home/u/todos", "work"), "/home/u/todos/work.json");
    assert_eq!(stored_list_path("/home/u/todos", "work.json"), "/home/u/todos/work.json");
    assert_eq!(stored_list_path("/d", "plain"), "/d/plain.json");
    assert_eq!(stored_list_path("/d", "a.json.json"), "/d/a.json");
    assert_eq!(stored_list_path("/d", "x.jso"), "/d/x.jso.json");
    assert_eq!(stored_list_path("/d", "my.jsonfile"), "/d/myfile.json");
    let list = TodoList::new("shop".to_string());
    assert_eq!(list.path_in("/d"), "/d/shop.json");
}
