use navmesh_scene::naming::{find_word, is_collider_name, lowered_name_is_collider};

fn chars(text: &str) -> Vec<char> {
    text.chars().collect()
}

#[test]
fn plain_collider_name_matches() {
    assert!(is_collider_name("collider"));
    assert!(is_collider_name("floor_collider_01"));
}

#[test]
fn upper_and_mixed_case_names_match() {
    assert!(is_collider_name("COLLIDER"));
    assert!(is_collider_name("Wall.Collider"));
    assert!(is_collider_name("rampCoLLiDeR"));
}

#[test]
fn names_without_the_word_do_not_match() {
    assert!(!is_collider_name(""));
    assert!(!is_collider_name("Light"));
    assert!(!is_collider_name("collide"));
    assert!(!is_collider_name("collid er"));
    assert!(!is_collider_name("redilloc"));
}

#[test]
fn lowercase_follows_unicode_rules() {
    // U+212A KELVIN SIGN lowercases to an ordinary k, not to a letter of the word.
    assert!(!is_collider_name("\u{212A}ollider"));
    // U+0130 lowercases to two characters, so the word is broken.
    assert!(!is_collider_name("COLL\u{0130}DER"));
    assert!(is_collider_name("\u{00C9}COLLIDER"));
}

#[test]
fn lowered_name_is_not_lowered_again() {
    assert!(lowered_name_is_collider(&chars("a collider")));
    assert!(!lowered_name_is_collider(&chars("A COLLIDER")));
    assert!(!lowered_name_is_collider(&chars("")));
}

#[test]
fn find_word_gives_the_leftmost_place() {
    assert_eq!(find_word(&chars("abcabc"), &chars("bc")), Some(1));
    assert_eq!(find_word(&chars("abcabc"), &chars("abc")), Some(0));
    assert_eq!(find_word(&chars("abcabc"), &chars("cab")), Some(2));
    assert_eq!(find_word(&chars("aab"), &chars("ab")), Some(1));
}

#[test]
fn find_word_at_the_end_and_beyond() {
    assert_eq!(find_word(&chars("xcollider"), &chars("collider")), Some(1));
    assert_eq!(find_word(&chars("collide"), &chars("collider")), None);
    assert_eq!(find_word(&chars("abc"), &chars("abcd")), None);
    assert_eq!(find_word(&chars("abc"), &chars("d")), None);
}

#[test]
fn empty_word_stands_at_the_start() {
    assert_eq!(find_word(&chars("abc"), &chars("")), Some(0));
    assert_eq!(find_word(&chars(""), &chars("")), Some(0));
}
