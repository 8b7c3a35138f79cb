use repo::text::{begins_with, characters, string_between};

#[test]
fn characters_are_taken_one_by_one() {
    assert_eq!(characters(""), Vec::<char>::new());
    assert_eq!(characters("a/b"), vec!['a', '/', 'b']);
    assert_eq!(characters("\u{e9}t\u{e9}"), vec!['\u{e9}', 't', '\u{e9}']);
}

#[test]
fn string_between_copies_the_range() {
    let cs = characters("git@host");
    assert_eq!(string_between(&cs, 4, 8), "host");
    assert_eq!(string_between(&cs, 0, 4), "git@");
    assert_eq!(string_between(&cs, 3, 3), "");
    assert_eq!(string_between(&cs, 0, 8), "git@host");
}

#[test]
fn begins_with_compares_the_prefix() {
    let cs = characters("https://x");
    assert!(begins_with(&cs, &characters("https://")));
    assert!(begins_with(&cs, &characters("")));
    assert!(begins_with(&cs, &cs));
    assert!(!begins_with(&cs, &characters("http://")));
    assert!(!begins_with(&cs, &characters("https://x/")));
    assert!(!begins_with(&characters(""), &characters("g")));
}
