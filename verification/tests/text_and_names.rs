use todo_lists::names::get_list_path;
use todo_lists::names::list_file_name;
use todo_lists::names::list_name_of_file;
use todo_lists::names::EXT;
use todo_lists::names::LISTS_DIR;
use todo_lists::text::decimal_text;
use todo_lists::text::join3;
use todo_lists::text::join5;
use todo_lists::wording::DONE;
use todo_lists::wording::NOT_DONE;

#[test]
fn decimal_of_small_numbers() {
    assert_eq!(decimal_text(0), "0");
    assert_eq!(decimal_text(1), "1");
    assert_eq!(decimal_text(9), "9");
}

#[test]
fn decimal_of_larger_numbers() {
    assert_eq!(decimal_text(10), "10");
    assert_eq!(decimal_text(11), "11");
    assert_eq!(decimal_text(100), "100");
    assert_eq!(decimal_text(1234567890), "1234567890");
    assert_eq!(decimal_text(9007), "9007");
}

#[test]
fn decimal_agrees_with_the_standard_rendering() {
    for n in [0usize, 5, 19, 20, 99, 101, 4096, 65535, 1000000, usize::MAX] {
        assert_eq!(decimal_text(n), format!("{}", n));
    }
}

#[test]
fn join_keeps_every_piece_in_order() {
    assert_eq!(join3("a", "b", "c"), "abc");
    assert_eq!(join3("", "middle", ""), "middle");
    assert_eq!(join5("1", "2", "3", "4", "5"), "12345");
    assert_eq!(join5("x", "", "y", "", "z"), "xyz");
}

#[test]
fn storage_constants() {
    assert_eq!(LISTS_DIR, "lists");
    assert_eq!(EXT, ".json");
    assert_eq!(DONE, "\u{2713}");
    assert_eq!(NOT_DONE, "\u{2715}");
    assert_ne!(DONE, NOT_DONE);
}

#[test]
fn file_name_is_name_and_extension() {
    assert_eq!(list_file_name("groceries"), "groceries.json");
    assert_eq!(list_file_name(""), ".json");
    assert_eq!(list_file_name("a.b"), "a.b.json");
    assert_eq!(list_file_name("été"), "été.json");
}

#[test]
fn path_is_below_the_lists_directory() {
    assert_eq!(get_list_path("groceries"), "lists/groceries.json");
    assert_eq!(get_list_path("my list"), "lists/my list.json");
}

#[test]
fn file_with_the_extension_backs_a_list() {
    assert_eq!(list_name_of_file("groceries.json"), Some("groceries".to_string()));
    assert_eq!(list_name_of_file("a.b.json"), Some("a.b".to_string()));
    assert_eq!(list_name_of_file("x.json.json"), Some("x.json".to_string()));
    assert_eq!(list_name_of_file("été.json"), Some("été".to_string()));
    assert_eq!(list_name_of_file(".json"), Some(String::new()));
}

#[test]
fn file_without_the_extension_backs_no_list() {
    assert_eq!(list_name_of_file("groceries.txt"), None);
    assert_eq!(list_name_of_file("groceries"), None);
    assert_eq!(list_name_of_file("json"), None);
    assert_eq!(list_name_of_file("a.jsonx"), None);
    assert_eq!(list_name_of_file("a.JSON"), None);
    assert_eq!(list_name_of_file(""), None);
    assert_eq!(list_name_of_file("a.json "), None);
}

#[test]
fn file_name_round_trip() {
    for name in ["a", "", "with space", "dots.in.name", "ünï", "x.json"] {
        assert_eq!(list_name_of_file(&list_file_name(name)), Some(name.to_string()));
    }
}
