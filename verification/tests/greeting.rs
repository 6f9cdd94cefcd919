use command_bridge::greeting::greet;

#[test]
fn greet_contains_the_name() {
    assert!(greet("X").contains("X"));
}

#[test]
fn greet_gives_the_full_sentence() {
    assert_eq!(greet("Ada"), "Hello, Ada! You've been greeted from Rust!");
}

#[test]
fn greet_puts_the_name_after_the_opening() {
    let greeting = greet("Grace Hopper");
    assert_eq!(greeting.find("Grace Hopper"), Some(7));
}

#[test]
fn greet_takes_an_empty_name() {
    assert_eq!(greet(""), "Hello, ! You've been greeted from Rust!");
}

#[test]
fn greet_keeps_a_name_in_any_script() {
    let greeting = greet("Zoë 東京");
    assert_eq!(greeting, "Hello, Zoë 東京! You've been greeted from Rust!");
    assert_eq!(greeting.chars().skip(7).take(6).collect::<String>(), "Zoë 東京");
}

#[test]
fn greet_does_not_read_braces_as_placeholders() {
    assert_eq!(greet("{}"), "Hello, {}! You've been greeted from Rust!");
}
