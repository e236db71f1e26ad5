use aresticrat::name::{LocationRepo, Name};
use aresticrat::selection::parse_selection;

const INVALID: &str = "Invalid name (only [A-Za-z0-9_-] are allowed).";

fn name(s: &str) -> Name {
    Name::parse(s).ok().unwrap()
}

#[test]
fn name_accepts_letters_digits_underscore_and_hyphen() {
    for s in ["a", "Z", "0", "_", "-", "repo-1_A", "ABCxyz019_-"] {
        let n = Name::parse(s).ok().unwrap();
        assert_eq!(n.as_str(), s);
    }
}

#[test]
fn name_rejects_the_empty_text() {
    let e = Name::parse("").err().unwrap();
    assert_eq!(e.message(), INVALID);
}

#[test]
fn name_rejects_other_characters() {
    for s in ["a b", "a@b", "a.b", "a/b", "é", "name!", " x", "x\n", "a=b"] {
        let e = Name::parse(s).err().unwrap();
        assert_eq!(e.message(), INVALID, "{s:?}");
    }
}

#[test]
fn name_rejects_a_late_invalid_character() {
    assert!(Name::parse("abcdefghij?").is_err());
    assert!(Name::parse("?abcdefghij").is_err());
}

#[test]
fn is_valid_char_knows_the_alphabet() {
    for c in ['a', 'm', 'z', 'A', 'M', 'Z', '0', '5', '9', '_', '-'] {
        assert!(Name::is_valid_char(c), "{c:?}");
    }
    for c in ['@', ' ', '.', '/', '`', '{', '[', ':', 'é', '\u{0}', '+'] {
        assert!(!Name::is_valid_char(c), "{c:?}");
    }
}

#[test]
fn names_compare_by_their_text() {
    assert!(name("abc") == name("abc"));
    assert!(name("abc") != name("abd"));
    assert!(name("abc") != name("ABC"));
    let n = name("copy-me");
    assert!(n.clone() == n);
    assert_eq!(n.clone().as_str(), "copy-me");
}

#[test]
fn token_without_at_is_a_location() {
    let t = LocationRepo::parse("home").ok().unwrap();
    assert_eq!(t.location().as_str(), "home");
    assert!(t.repo().is_none());
}

#[test]
fn token_with_at_is_a_location_and_a_repository() {
    let t = LocationRepo::parse("home@nas-1").ok().unwrap();
    assert_eq!(t.location().as_str(), "home");
    assert_eq!(t.repo().unwrap().as_str(), "nas-1");
    let c = t.clone();
    assert_eq!(c.location().as_str(), "home");
    assert_eq!(c.repo().unwrap().as_str(), "nas-1");
}

#[test]
fn token_needs_identifiers_on_both_sides() {
    for s in ["", "@", "@repo", "home@", "home@a@b", "ho me@repo", "home@re po", "a@@b"] {
        let e = LocationRepo::parse(s).err().unwrap();
        assert_eq!(e.message(), INVALID, "{s:?}");
    }
}

#[test]
fn token_splits_at_the_first_at() {
    assert!(LocationRepo::parse("a@b@c").is_err());
    let t = LocationRepo::parse("a@b").ok().unwrap();
    assert_eq!(t.location().as_str(), "a");
    assert_eq!(t.repo().unwrap().as_str(), "b");
}

#[test]
fn selection_is_read_word_by_word() {
    let words = vec!["home".to_string(), "etc@nas".to_string(), "home@usb".to_string()];
    let selection = parse_selection(&words).ok().unwrap();
    assert_eq!(selection.len(), 3);
    assert_eq!(selection[0].location().as_str(), "home");
    assert!(selection[0].repo().is_none());
    assert_eq!(selection[1].location().as_str(), "etc");
    assert_eq!(selection[1].repo().unwrap().as_str(), "nas");
    assert_eq!(selection[2].location().as_str(), "home");
    assert_eq!(selection[2].repo().unwrap().as_str(), "usb");
}

#[test]
fn selection_of_no_words_is_empty() {
    let selection = parse_selection(&vec![]).ok().unwrap();
    assert!(selection.is_empty());
}

#[test]
fn selection_fails_on_a_word_that_is_no_token() {
    let words = vec!["home".to_string(), "bad word".to_string(), "etc".to_string()];
    let e = parse_selection(&words).err().unwrap();
    assert_eq!(e.message(), INVALID);
}
