use azure_credit_burner::text::{
    chars_of, contains_any, decimal_string, ends_with_any, find_chars, find_from, lex_le_chars,
    matches_at, parse_u64_chars, replace_all, same_text, slice_chars, str_contains,
    str_ends_with, take_chars,
};

fn cs(s: &str) -> Vec<char> {
    s.chars().collect()
}

#[test]
fn chars_of_gives_scalar_values() {
    assert_eq!(chars_of("aé分"), vec!['a', 'é', '分']);
    assert_eq!(chars_of(""), Vec::<char>::new());
}

#[test]
fn searching() {
    assert!(matches_at(&cs("hello"), &cs("ll"), 2));
    assert!(!matches_at(&cs("hello"), &cs("ll"), 3));
    assert!(!matches_at(&cs("hello"), &cs("lo"), 4));
    assert!(matches_at(&cs("hello"), &cs(""), 5));
    assert!(!matches_at(&cs("hello"), &cs(""), 6));
    assert_eq!(find_from(&cs("abcabc"), &cs("bc"), 0), Some(1));
    assert_eq!(find_from(&cs("abcabc"), &cs("bc"), 2), Some(4));
    assert_eq!(find_from(&cs("abcabc"), &cs("bc"), 5), None);
    assert_eq!(find_chars(&cs("abcabc"), &cs("ca")), Some(2));
    assert_eq!(find_chars(&cs("abc"), &cs("abcd")), None);
    assert_eq!(find_chars(&cs("abc"), &cs("")), Some(0));
    assert!(str_contains("a/src/b", "/src/"));
    assert!(!str_contains("src/b", "/src/"));
    assert!(str_contains("", ""));
    assert!(str_ends_with("x/README.md", "README.md"));
    assert!(!str_ends_with("README.md2", "README.md"));
    assert!(!str_ends_with("md", "README.md"));
    assert!(same_text("分析", "分析"));
    assert!(!same_text("分析", "分"));
    assert!(ends_with_any("a.rs", &vec![".py", ".rs"]));
    assert!(!ends_with_any("a.rs", &vec![".py", ".js"]));
    assert!(!ends_with_any("a.rs", &Vec::new()));
    assert!(contains_any("a/bin/x", &vec!["/obj/", "/bin/"]));
    assert!(!contains_any("a/bin", &vec!["/obj/", "/bin/"]));
}

#[test]
fn replacing() {
    assert_eq!(replace_all("a b c", " ", "_"), "a_b_c");
    assert_eq!(replace_all("aaa", "aa", "b"), "ba");
    assert_eq!(replace_all("aaaa", "aa", "b"), "bb");
    assert_eq!(replace_all("abc", "x", "y"), "abc");
    assert_eq!(replace_all("abc", "", "y"), "abc");
    assert_eq!(replace_all("ab", "abc", "y"), "ab");
    assert_eq!(replace_all("xaxa", "a", "aa"), "xaaxaa");
    assert_eq!(replace_all("{k}と{k}", "{k}", "値"), "値と値");
    assert_eq!(replace_all("", "a", "b"), "");
}

#[test]
fn lexicographic_order() {
    assert!(lex_le_chars(&cs(""), &cs("")));
    assert!(lex_le_chars(&cs(""), &cs("a")));
    assert!(!lex_le_chars(&cs("a"), &cs("")));
    assert!(lex_le_chars(&cs("a"), &cs("ab")));
    assert!(!lex_le_chars(&cs("ab"), &cs("a")));
    assert!(lex_le_chars(&cs("ab"), &cs("ab")));
    assert!(lex_le_chars(&cs("Z"), &cs("a")));
    assert!(lex_le_chars(&cs("abc"), &cs("abd")));
    assert!(!lex_le_chars(&cs("abd"), &cs("abc")));
    assert!(lex_le_chars(&cs("z"), &cs("é")));
}

#[test]
fn taking_characters() {
    assert_eq!(take_chars("héllo", 2), "hé");
    assert_eq!(take_chars("héllo", 5), "héllo");
    assert_eq!(take_chars("héllo", 9), "héllo");
    assert_eq!(take_chars("héllo", 0), "");
    assert_eq!(slice_chars(&cs("hello"), 1, 3), cs("el"));
    assert_eq!(slice_chars(&cs("hello"), 2, 2), cs(""));
}

#[test]
fn decimal_notation() {
    assert_eq!(decimal_string(0), "0");
    assert_eq!(decimal_string(7), "7");
    assert_eq!(decimal_string(10), "10");
    assert_eq!(decimal_string(12345), "12345");
    assert_eq!(decimal_string(usize::MAX), usize::MAX.to_string());
}

#[test]
fn parsing_numbers() {
    assert_eq!(parse_u64_chars(&cs("42")), Some(42));
    assert_eq!(parse_u64_chars(&cs("+7")), Some(7));
    assert_eq!(parse_u64_chars(&cs("007")), Some(7));
    assert_eq!(parse_u64_chars(&cs("")), None);
    assert_eq!(parse_u64_chars(&cs("+")), None);
    assert_eq!(parse_u64_chars(&cs("++1")), None);
    assert_eq!(parse_u64_chars(&cs("-1")), None);
    assert_eq!(parse_u64_chars(&cs("4a")), None);
    assert_eq!(parse_u64_chars(&cs(" 4")), None);
    assert_eq!(parse_u64_chars(&cs("18446744073709551615")), Some(u64::MAX));
    assert_eq!(parse_u64_chars(&cs("18446744073709551616")), None);
    assert_eq!(parse_u64_chars(&cs("99999999999999999999999")), None);
}
