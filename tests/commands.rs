use frontend_commands::{check_file_existence, greet, log_path_line};
use std::cell::RefCell;
use std::path::Path;

fn on_disk(p: &String) -> bool {
    Path::new(p).exists()
}

#[test]
fn greet_world() {
    assert_eq!(greet("World"), "Hello, World! You've been greeted from Rust!");
}

#[test]
fn greet_empty_name() {
    assert_eq!(greet(""), "Hello, ! You've been greeted from Rust!");
}

#[test]
fn greet_keeps_name_unchanged() {
    assert_eq!(greet("Zoë & {}"), "Hello, Zoë & {}! You've been greeted from Rust!");
}

#[test]
fn greet_same_name_same_greeting() {
    assert_eq!(greet("Ada"), greet("Ada"));
    assert_ne!(greet("Ada"), greet("Bob"));
}

#[test]
fn existence_of_no_paths() {
    assert_eq!(check_file_existence(Vec::new(), on_disk), Vec::<bool>::new());
}

#[test]
fn existence_on_the_real_filesystem() {
    let paths = vec![
        "/".to_string(),
        "/no/such/directory/anywhere_4f1c".to_string(),
        "".to_string(),
        "/".to_string(),
    ];
    assert_eq!(check_file_existence(paths, on_disk), vec![true, false, false, true]);
}

#[test]
fn existence_keeps_length_and_order() {
    let present = ["b.txt", "d.txt"];
    let probe = |p: &String| present.contains(&p.as_str());
    let paths: Vec<String> = ["a.txt", "b.txt", "c.txt", "d.txt", "b.txt"]
        .iter()
        .map(|s| s.to_string())
        .collect();
    assert_eq!(
        check_file_existence(paths, probe),
        vec![false, true, false, true, true]
    );
}

#[test]
fn existence_asks_once_per_path_in_order() {
    let asked: RefCell<Vec<String>> = RefCell::new(Vec::new());
    let probe = |p: &String| {
        asked.borrow_mut().push(p.clone());
        p.len() % 2 == 0
    };
    let paths = vec!["x".to_string(), "yy".to_string(), "x".to_string()];
    assert_eq!(check_file_existence(paths.clone(), probe), vec![false, true, false]);
    assert_eq!(asked.into_inner(), paths);
}

#[test]
fn log_line_for_path() {
    assert_eq!(
        log_path_line("/home/user/notes.md"),
        "Received path from frontend: /home/user/notes.md"
    );
}

#[test]
fn log_line_for_empty_path() {
    assert_eq!(log_path_line(""), "Received path from frontend: ");
}
