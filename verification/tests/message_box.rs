use hello_world::message_box::HelloWorld;

#[test]
fn new_box_reads_hello_world() {
    let cell = HelloWorld::new();
    assert_eq!(cell.get_message(), "Hello, World!");
    assert_eq!(cell.get_message().len(), 13);
}

#[test]
fn box_read_leaves_the_message() {
    let cell = HelloWorld::new();
    let first = cell.get_message();
    let second = cell.get_message();
    assert_eq!(first, second);
    assert_eq!(second, "Hello, World!");
}

#[test]
fn box_set_then_get_returns_the_value() {
    let values = vec![
        "Goodbye",
        "",
        " ",
        "Hello, World!",
        "line one\nline two\n",
        "tab\tand\0nul",
        "Gr\u{fc}\u{df} Gott, \u{4e16}\u{754c} \u{1f44b}",
    ];
    for v in values {
        let mut cell = HelloWorld::new();
        cell.set_message(String::from(v));
        assert_eq!(cell.get_message(), v);
    }
}

#[test]
fn box_set_takes_a_long_message() {
    let long = "ab".repeat(50_000);
    let mut cell = HelloWorld::new();
    cell.set_message(long.clone());
    assert_eq!(cell.get_message().len(), 100_000);
    assert_eq!(cell.get_message(), long);
}

#[test]
fn box_set_takes_the_prelude_string() {
    let text = ink_prelude::string::String::from("from the prelude");
    let mut cell = HelloWorld::new();
    cell.set_message(text);
    let read: ink_prelude::string::String = cell.get_message();
    assert_eq!(read, "from the prelude");
}

#[test]
fn box_set_twice_with_one_value_is_set_once() {
    let mut once = HelloWorld::new();
    once.set_message(String::from("again"));
    let mut twice = HelloWorld::new();
    twice.set_message(String::from("again"));
    twice.set_message(String::from("again"));
    assert_eq!(once.get_message(), twice.get_message());
    assert_eq!(twice.get_message(), "again");
}

#[test]
fn box_last_set_wins() {
    let mut cell = HelloWorld::new();
    cell.set_message(String::from("first"));
    assert_eq!(cell.get_message(), "first");
    cell.set_message(String::from("second"));
    assert_eq!(cell.get_message(), "second");
    cell.set_message(String::new());
    assert_eq!(cell.get_message(), "");
}

#[test]
fn box_set_replaces_and_does_not_append() {
    let mut cell = HelloWorld::new();
    cell.set_message(String::from("!"));
    assert_eq!(cell.get_message(), "!");
    assert_ne!(cell.get_message(), "Hello, World!!");
}

#[test]
fn boxes_do_not_share_their_message() {
    let mut a = HelloWorld::new();
    let b = HelloWorld::new();
    a.set_message(String::from("only a"));
    assert_eq!(a.get_message(), "only a");
    assert_eq!(b.get_message(), "Hello, World!");
}
