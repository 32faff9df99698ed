use simple_rust::greeting::greet;

#[test]
fn greet_named() {
    assert_eq!(greet(Some(String::from("Alice"))), "Hello Alice!");
}

#[test]
fn greet_none_defaults_to_world() {
    assert_eq!(greet(None), "Hello World!");
}

#[test]
fn greet_empty_defaults_to_world() {
    assert_eq!(greet(Some(String::new())), "Hello World!");
}

#[test]
fn greet_unicode_name() {
    assert_eq!(greet(Some(String::from("wörld 世界"))), "Hello wörld 世界!");
}

#[test]
fn greet_punctuation_name() {
    assert_eq!(greet(Some(String::from("O'Brien, Esq."))), "Hello O'Brien, Esq.!");
}

#[test]
fn greet_single_space_name() {
    assert_eq!(greet(Some(String::from(" "))), "Hello  !");
}

#[test]
fn greet_is_idempotent() {
    let a = greet(Some(String::from("Alice")));
    let b = greet(Some(String::from("Alice")));
    assert_eq!(a, b);
    let c = greet(None);
    let d = greet(None);
    assert_eq!(c, d);
}
