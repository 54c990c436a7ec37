use tauri_runtime_cef::text::{chars_of, push_decimal, push_escaped, replace_all_str};

#[test]
fn escapes_backslash_quote_and_newline() {
    let mut out = String::from(">");
    push_escaped(&mut out, "a\\b\"c\nd\te");
    assert_eq!(out, ">a\\\\b\\\"c\\nd\te");
}

#[test]
fn decimals() {
    for n in [0i32, 7, 10, 99, 100, -1, -10, 123456789, i32::MAX, i32::MIN] {
        let mut out = String::new();
        push_decimal(&mut out, n);
        assert_eq!(out, n.to_string());
    }
}

#[test]
fn replace_matches_std() {
    let cases = [
        ("aaaa", "aa", "b"),
        ("abcabc", "bc", ""),
        ("xyz", "q", "r"),
        ("", "a", "b"),
        ("aaa", "aa", "aaa"),
        ("日本日本", "本", "x"),
        ("ab", "abc", "z"),
    ];
    for (s, p, r) in cases {
        assert_eq!(replace_all_str(s, p, r), s.replace(p, r));
    }
}

#[test]
fn chars_in_order() {
    assert_eq!(chars_of("hé😀"), vec!['h', 'é', '😀']);
    assert_eq!(chars_of(""), Vec::<char>::new());
}
