use relief::text::{chars_of, comes_before, is_listed, same_text};

#[test]
fn chars_of_gives_each_character() {
    assert_eq!(chars_of("añb"), vec!['a', 'ñ', 'b']);
    assert_eq!(chars_of(""), Vec::<char>::new());
}

#[test]
fn same_text_compares_characters() {
    assert!(same_text("abc", "abc"));
    assert!(same_text("", ""));
    assert!(!same_text("abc", "abd"));
    assert!(!same_text("abc", "ab"));
}

#[test]
fn comes_before_is_the_dictionary_order() {
    assert!(comes_before("a", "b"));
    assert!(comes_before("", "a"));
    assert!(comes_before("ab", "abc"));
    assert!(comes_before("Z", "a"));
    assert!(comes_before("abc", "abd"));
    assert!(!comes_before("b", "a"));
    assert!(!comes_before("a", "a"));
    assert!(!comes_before("abc", "ab"));
    assert!(!comes_before("", ""));
}

#[test]
fn comes_before_agrees_with_the_order_of_strings() {
    let words = ["", "a", "ab", "b", "ba", "é", "z", "Z", "0", "a-b", "a.b"];
    for x in words {
        for y in words {
            assert_eq!(comes_before(x, y), x < y);
        }
    }
}

#[test]
fn is_listed_finds_members() {
    let names = vec!["one".to_string(), "two".to_string()];
    assert!(is_listed(&names, "one"));
    assert!(is_listed(&names, "two"));
    assert!(!is_listed(&names, "three"));
    assert!(!is_listed(&Vec::new(), "one"));
}
