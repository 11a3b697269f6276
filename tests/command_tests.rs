use tasklist::command::{parse_command, Command};
use tasklist::settings::Settings;

fn args(v: &[&str]) -> Vec<String> {
    v.iter().map(|s| s.to_string()).collect()
}

#[test]
fn no_arguments_is_an_error() {
    assert_eq!(parse_command(&args(&[])), Err("Please enter a valid command".to_string()));
}

#[test]
fn new_needs_a_name() {
    let err = Err("Please provide a valid list name".to_string());
    assert_eq!(parse_command(&args(&["new"])), err);
    assert_eq!(parse_command(&args(&["new", "   "])), err);
    assert_eq!(
        parse_command(&args(&["new", " groceries "])),
        Ok(Command::NewList("groceries".to_string()))
    );
}

#[test]
fn list_and_open() {
    assert_eq!(parse_command(&args(&["list"])), Ok(Command::ListLists));
    assert_eq!(
        parse_command(&args(&[" work "])),
        Ok(Command::OpenListPanel("work".to_string()))
    );
    assert_eq!(
        parse_command(&args(&["News", "x"])),
        Ok(Command::OpenListPanel("News".to_string()))
    );
}

#[test]
fn default_settings() {
    let s = Settings::default("/home/u".to_string());
    assert_eq!(s.todopath, "/home/u/todos");
    assert_eq!(s.checked_symbol, "[x]");
    assert_eq!(s.unchecked_symbol, "[ ]");
    assert_eq!(Settings::config_dir("/home/u"), "/home/u/.config/todo");
    assert_eq!(Settings::config_file("/home/u"), "/home/u/.config/todo/config.json");
}
