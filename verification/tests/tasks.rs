use todo_lists::error::ErrorKind;
use todo_lists::error::StoreError;
use todo_lists::model::Outcome;
use todo_lists::operations::add_task;
use todo_lists::operations::change_task_status;
use todo_lists::operations::create_list;
use todo_lists::operations::get_tasks;
use todo_lists::operations::print_list;
use todo_lists::operations::remove_task;
use todo_lists::store::Content;
use todo_lists::store::ListStore;
use todo_lists::task::copy_tasks;
use todo_lists::task::Task;
use todo_lists::wording::task_line_text;

fn task(title: &str, done: bool) -> Task {
    Task { title: title.to_string(), done }
}

fn store_with(name: &str, tasks: Vec<Task>) -> ListStore {
    let mut store = ListStore::new();
    store.adopt(name, Content::Tasks(tasks));
    store
}

fn broken_store(name: &str) -> ListStore {
    let mut store = ListStore::new();
    store.adopt(
        name,
        Content::Unreadable(StoreError {
            kind: ErrorKind::InvalidData,
            message: "expected value at line 1 column 1".to_string(),
        }),
    );
    store
}

#[test]
fn new_task_is_not_done() {
    let made = Task::new("buy milk");
    assert_eq!(made.title, "buy milk");
    assert!(!made.done);
}

#[test]
fn clone_keeps_title_and_flag() {
    let first = task("water plants", true);
    assert_eq!(first.clone(), first);
}

#[test]
fn copy_tasks_keeps_every_task_in_order() {
    let tasks = vec![task("a", false), task("b", true), task("c", false)];
    assert_eq!(copy_tasks(&tasks), tasks);
    assert_eq!(copy_tasks(&Vec::new()), Vec::<Task>::new());
}

#[test]
fn add_then_load_round_trip() {
    let mut store = ListStore::new();
    create_list(&mut store, "L").unwrap();
    let receipt = add_task(&mut store, "L", "buy milk").unwrap();
    assert_eq!(receipt.outcome, Outcome::Added);
    assert_eq!(receipt.message, "Added \"buy milk\" to list \"L\".");
    assert_eq!(get_tasks(&store, "L"), Ok(vec![task("buy milk", false)]));
}

#[test]
fn add_appends_behind_the_tasks_that_are_there() {
    let mut store = store_with("L", vec![task("first", true)]);
    add_task(&mut store, "L", "second").unwrap();
    add_task(&mut store, "L", "third").unwrap();
    assert_eq!(
        get_tasks(&store, "L"),
        Ok(vec![task("first", true), task("second", false), task("third", false)])
    );
}

#[test]
fn add_to_missing_list_fails_with_not_found() {
    let mut store = ListStore::new();
    let error = add_task(&mut store, "nowhere", "x").unwrap_err();
    assert_eq!(error.kind, ErrorKind::NotFound);
    assert_eq!(error.message, "List \"nowhere\" not found.");
    assert_eq!(store.len(), 0);
}

#[test]
fn add_to_unreadable_list_fails_and_keeps_it() {
    let mut store = broken_store("L");
    let error = add_task(&mut store, "L", "x").unwrap_err();
    assert_eq!(error.kind, ErrorKind::InvalidData);
    assert_eq!(error.message, "expected value at line 1 column 1");
    assert_eq!(get_tasks(&store, "L").unwrap_err().kind, ErrorKind::InvalidData);
}

#[test]
fn remove_only_task_leaves_an_empty_list() {
    let mut store = store_with("L", vec![task("only", false)]);
    let receipt = remove_task(&mut store, "L", 0).unwrap();
    assert_eq!(receipt.outcome, Outcome::Removed);
    assert_eq!(receipt.message, "Removed \"only\" from list \"L\".");
    assert_eq!(get_tasks(&store, "L"), Ok(Vec::new()));
    assert!(store.contains("L"));
}

#[test]
fn remove_middle_task_keeps_the_order_of_the_rest() {
    let mut store = store_with("L", vec![task("A", false), task("B", true), task("C", false)]);
    let receipt = remove_task(&mut store, "L", 1).unwrap();
    assert_eq!(receipt.message, "Removed \"B\" from list \"L\".");
    assert_eq!(get_tasks(&store, "L"), Ok(vec![task("A", false), task("C", false)]));
}

#[test]
fn remove_first_and_last_task() {
    let mut store = store_with("L", vec![task("A", false), task("B", true), task("C", false)]);
    remove_task(&mut store, "L", 2).unwrap();
    assert_eq!(get_tasks(&store, "L"), Ok(vec![task("A", false), task("B", true)]));
    remove_task(&mut store, "L", 0).unwrap();
    assert_eq!(get_tasks(&store, "L"), Ok(vec![task("B", true)]));
}

#[test]
fn remove_beyond_the_end_reports_out_of_range() {
    let mut store = store_with("L", vec![task("A", false), task("B", true)]);
    let receipt = remove_task(&mut store, "L", 2).unwrap();
    assert_eq!(receipt.outcome, Outcome::OutOfRange);
    assert_eq!(receipt.message, "Selected index is out of range.");
    assert_eq!(get_tasks(&store, "L"), Ok(vec![task("A", false), task("B", true)]));
    let far = remove_task(&mut store, "L", usize::MAX).unwrap();
    assert_eq!(far.outcome, Outcome::OutOfRange);
    assert_eq!(get_tasks(&store, "L"), Ok(vec![task("A", false), task("B", true)]));
}

#[test]
fn remove_at_the_last_index_is_in_range() {
    let mut store = store_with("L", vec![task("A", false), task("B", true)]);
    let receipt = remove_task(&mut store, "L", 1).unwrap();
    assert_eq!(receipt.outcome, Outcome::Removed);
    assert_eq!(get_tasks(&store, "L"), Ok(vec![task("A", false)]));
}

#[test]
fn remove_from_empty_list_changes_nothing() {
    let mut store = store_with("L", Vec::new());
    let receipt = remove_task(&mut store, "L", 3).unwrap();
    assert_eq!(receipt.outcome, Outcome::Empty);
    assert_eq!(receipt.message, "List \"L\" is empty.");
    assert_eq!(get_tasks(&store, "L"), Ok(Vec::new()));
}

#[test]
fn remove_from_missing_list_fails_with_not_found() {
    let mut store = ListStore::new();
    let error = remove_task(&mut store, "nowhere", 0).unwrap_err();
    assert_eq!(error.kind, ErrorKind::NotFound);
    assert_eq!(error.message, "List \"nowhere\" not found.");
    assert_eq!(store.len(), 0);
}

#[test]
fn remove_leaves_other_lists_alone() {
    let mut store = store_with("L", vec![task("A", false), task("B", false)]);
    store.adopt("M", Content::Tasks(vec![task("A", false), task("B", false)]));
    remove_task(&mut store, "L", 0).unwrap();
    assert_eq!(get_tasks(&store, "M"), Ok(vec![task("A", false), task("B", false)]));
}

#[test]
fn toggle_flips_only_that_task() {
    let mut store = store_with("L", vec![task("A", false), task("B", false), task("C", true)]);
    let receipt = change_task_status(&mut store, "L", 1).unwrap();
    assert_eq!(receipt.outcome, Outcome::Changed);
    assert_eq!(receipt.message, "Changed status for \"B\" in \"L\".");
    assert_eq!(
        get_tasks(&store, "L"),
        Ok(vec![task("A", false), task("B", true), task("C", true)])
    );
}

#[test]
fn toggle_twice_restores_the_task() {
    let mut store = store_with("L", vec![task("A", false), task("B", true)]);
    change_task_status(&mut store, "L", 1).unwrap();
    assert_eq!(get_tasks(&store, "L"), Ok(vec![task("A", false), task("B", false)]));
    change_task_status(&mut store, "L", 1).unwrap();
    assert_eq!(get_tasks(&store, "L"), Ok(vec![task("A", false), task("B", true)]));
}

#[test]
fn toggle_beyond_the_end_reports_out_of_range() {
    let mut store = store_with("L", vec![task("A", false), task("B", true)]);
    let receipt = change_task_status(&mut store, "L", 2).unwrap();
    assert_eq!(receipt.outcome, Outcome::OutOfRange);
    assert_eq!(receipt.message, "Selected index is out of range.");
    assert_eq!(get_tasks(&store, "L"), Ok(vec![task("A", false), task("B", true)]));
    let far = change_task_status(&mut store, "L", usize::MAX).unwrap();
    assert_eq!(far.outcome, Outcome::OutOfRange);
    assert_eq!(get_tasks(&store, "L"), Ok(vec![task("A", false), task("B", true)]));
}

#[test]
fn toggle_on_empty_list_reports_empty() {
    let mut store = store_with("L", Vec::new());
    let receipt = change_task_status(&mut store, "L", 0).unwrap();
    assert_eq!(receipt.outcome, Outcome::Empty);
    assert_eq!(receipt.message, "List \"L\" is empty.");
    assert_eq!(get_tasks(&store, "L"), Ok(Vec::new()));
}

#[test]
fn toggle_on_missing_list_fails_with_not_found() {
    let mut store = ListStore::new();
    let error = change_task_status(&mut store, "nowhere", 0).unwrap_err();
    assert_eq!(error.kind, ErrorKind::NotFound);
    assert_eq!(error.message, "List \"nowhere\" not found.");
    assert_eq!(store.len(), 0);
}

#[test]
fn print_shows_index_mark_and_title() {
    let store = store_with("L", vec![task("buy milk", false), task("call mum", true)]);
    assert_eq!(
        print_list(&store, "L"),
        Ok(vec!["0: \u{2715} buy milk".to_string(), "1: \u{2713} call mum".to_string()])
    );
}

#[test]
fn print_of_empty_list_says_so() {
    let store = store_with("L", Vec::new());
    assert_eq!(print_list(&store, "L"), Ok(vec!["List \"L\" is empty.".to_string()]));
}

#[test]
fn print_of_missing_list_fails_with_not_found() {
    let store = ListStore::new();
    let error = print_list(&store, "nowhere").unwrap_err();
    assert_eq!(error.kind, ErrorKind::NotFound);
    assert_eq!(error.message, "List \"nowhere\" not found.");
}

#[test]
fn print_of_unreadable_list_gives_its_error() {
    let store = broken_store("L");
    let error = print_list(&store, "L").unwrap_err();
    assert_eq!(error.kind, ErrorKind::InvalidData);
    assert_eq!(error.message, "expected value at line 1 column 1");
}

#[test]
fn print_numbers_lines_in_decimal() {
    let mut tasks = Vec::new();
    for i in 0..12 {
        tasks.push(task("t", i % 2 == 0));
    }
    let lines = print_list(&store_with("L", tasks), "L").unwrap();
    assert_eq!(lines.len(), 12);
    assert_eq!(lines[9], "9: \u{2715} t");
    assert_eq!(lines[10], "10: \u{2713} t");
    assert_eq!(lines[11], "11: \u{2715} t");
}

#[test]
fn task_line_has_the_marks() {
    assert_eq!(task_line_text(0, &task("x", true)), "0: ✓ x");
    assert_eq!(task_line_text(7, &task("", false)), "7: ✕ ");
    assert_eq!(task_line_text(120, &task("a: b", false)), "120: ✕ a: b");
}
