use engine_orchestrator::text::{
    char_is_white_space, chars_of, clone_strings, concat2, concat3, join_path, str_can_cut, str_contains, str_eq,
    str_head, str_is_blank, str_starts_with, str_tail, str_trim,
};

#[test]
fn equal_texts_are_equal() {
    assert!(str_eq("", ""));
    assert!(str_eq("omission", "omission"));
    assert!(str_eq("héllo", "héllo"));
    assert!(!str_eq("omission", "omissioñ"));
    assert!(!str_eq("a", "ab"));
    assert!(!str_eq("ab", "a"));
    assert!(!str_eq("A", "a"));
}

#[test]
fn blank_texts_hold_white_space_only() {
    for blank in ["", " ", "\t\n\r", "\u{b}\u{c}", "\u{85}", "\u{a0}", "\u{1680}", "\u{2000}\u{200a}",
        "\u{2028}\u{2029}", "\u{202f}\u{205f}\u{3000}"]
    {
        assert!(str_is_blank(blank), "{blank:?}");
        assert_eq!(blank.trim().is_empty(), str_is_blank(blank));
    }
    for filled in ["a", " a ", "\u{200b}", "\u{feff}", "\u{180e}", "{}", "\0"] {
        assert!(!str_is_blank(filled), "{filled:?}");
        assert_eq!(filled.trim().is_empty(), str_is_blank(filled));
    }
}

#[test]
fn trimming_removes_white_space_at_both_ends() {
    for text in ["", "   ", "a", "  a b  ", "\n{\"a\": 1}\n", "\u{3000}x\u{a0}", "x \u{200b} ", " é "] {
        assert_eq!(str_trim(text), text.trim(), "{text:?}");
    }
}

#[test]
fn prefixes_and_parts_are_found() {
    assert!(str_starts_with("sk-ant-123", "sk-ant-"));
    assert!(str_starts_with("sk-ant-", "sk-ant-"));
    assert!(str_starts_with("abc", ""));
    assert!(!str_starts_with("sk-an", "sk-ant-"));
    assert!(!str_starts_with("xsk-ant-", "sk-ant-"));

    assert!(str_contains("sk-a...1234", "..."));
    assert!(str_contains("...", "..."));
    assert!(str_contains("abc", ""));
    assert!(str_contains("", ""));
    assert!(str_contains("ab-c", "-"));
    assert!(str_contains("héllo wörld", "wör"));
    assert!(!str_contains("a..b", "..."));
    assert!(!str_contains("", "a"));
    assert!(!str_contains("ab", "abc"));
}

#[test]
fn texts_are_copied_and_joined() {
    assert_eq!(chars_of("héy"), vec!['h', 'é', 'y']);
    assert_eq!(chars_of(""), Vec::<char>::new());
    let list = vec!["a".to_string(), String::new(), "ç".to_string()];
    assert_eq!(clone_strings(&list), list);
    assert_eq!(concat2("ab", "cd"), "abcd");
    assert_eq!(concat3("a", "", "c"), "ac");
}

#[test]
fn texts_are_cut_between_characters() {
    assert!(str_can_cut("héllo", 0));
    assert!(str_can_cut("héllo", 1));
    assert!(!str_can_cut("héllo", 2));
    assert!(str_can_cut("héllo", 3));
    assert!(str_can_cut("héllo", 6));
    assert!(!str_can_cut("héllo", 7));
    assert_eq!(str_head("héllo", 3), "hé");
    assert_eq!(str_tail("héllo", 3), "llo");
    assert_eq!(str_head("abc", 0), "");
    assert_eq!(str_tail("abc", 3), "");
}

#[test]
fn paths_are_joined_with_one_slash() {
    assert_eq!(join_path("a", "b"), "a/b");
    assert_eq!(join_path("a/", "b"), "a/b");
    assert_eq!(join_path("", "b"), "b");
    assert_eq!(join_path("/", "b"), "/b");
    assert_eq!(join_path("a", ""), "a/");
    for (base, part) in [("a", "b"), ("a/", "b"), ("", "b"), ("/x/y", "z.js"), ("a", "")] {
        let joined = std::path::Path::new(base).join(part);
        assert_eq!(join_path(base, part), joined.to_str().unwrap());
    }
}

#[test]
fn white_space_is_what_the_standard_library_takes_for_it() {
    for c in '\0'..=char::MAX {
        assert_eq!(char_is_white_space(c), c.is_whitespace(), "{c:?}");
    }
}
