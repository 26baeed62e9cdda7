use oop::text_interface::{action_for, parse_action, strip_line_endings, Action, Directory};

#[test]
fn actions_from_typed_lines() {
    assert_eq!(Action::Add, parse_action("a\n"));
    assert_eq!(Action::List, parse_action("  l \r\n"));
    assert_eq!(Action::Quit, parse_action("q"));
    assert_eq!(Action::Help, parse_action("?\n"));
    assert_eq!(Action::Ignore, parse_action("add\n"));
    assert_eq!(Action::Ignore, parse_action("\n"));
    assert_eq!(Action::Ignore, parse_action("a l"));
}

#[test]
fn actions_from_trimmed_commands() {
    assert_eq!(Action::Add, action_for("a"));
    assert_eq!(Action::Ignore, action_for(" a"));
    assert_eq!(Action::Ignore, action_for(""));
    assert_eq!(Action::Ignore, action_for("A"));
}

#[test]
fn line_endings_are_dropped() {
    assert_eq!("Sales", strip_line_endings("Sales\n"));
    assert_eq!("Sales", strip_line_endings("Sales\r\n"));
    assert_eq!("Sales", strip_line_endings("Sales"));
    assert_eq!("ab", strip_line_endings("a\nb\n"));
    assert_eq!("a\r", strip_line_endings("a\r\r\n"));
    assert_eq!("a\rb", strip_line_endings("a\rb"));
    assert_eq!("", strip_line_endings(""));
}

#[test]
fn directory_lists_departments_with_sorted_staff() {
    let mut d = Directory::new();
    d.register(String::from("Engineering"), String::from("Sally"));
    d.register(String::from("Sales"), String::from("Amir"));
    d.register(String::from("Engineering"), String::from("Bob"));
    assert_eq!(
        vec![
            String::from("Department Employee List"),
            String::from("Engineering"),
            String::from("\tSally"),
            String::from("\tBob"),
            String::from("Sales"),
            String::from("\tAmir"),
        ],
        d.listing()
    );
    assert_eq!(
        vec![
            String::from("Department Employee List"),
            String::from("Engineering"),
            String::from("\tBob"),
            String::from("\tSally"),
            String::from("Sales"),
            String::from("\tAmir"),
        ],
        d.list()
    );
}

#[test]
fn empty_directory_lists_only_the_heading() {
    let mut d = Directory::new();
    assert_eq!(vec![String::from("Department Employee List")], d.list());
}

#[test]
fn staff_sorted_by_code_point_with_duplicates_kept() {
    let mut d = Directory::new();
    d.register(String::from("Ops"), String::from("émile"));
    d.register(String::from("Ops"), String::from("amy"));
    d.register(String::from("Ops"), String::from("Zoe"));
    d.register(String::from("Ops"), String::from("amy"));
    d.register(String::from("Ops"), String::from("am"));
    assert_eq!(
        vec![
            String::from("Department Employee List"),
            String::from("Ops"),
            String::from("\tZoe"),
            String::from("\tam"),
            String::from("\tamy"),
            String::from("\tamy"),
            String::from("\témile"),
        ],
        d.list()
    );
}

#[test]
fn unicode_white_space_around_commands() {
    assert_eq!(Action::Quit, parse_action("\u{3000}q\u{a0}"));
    assert_eq!(Action::Help, parse_action("\t?\u{2028}"));
}
