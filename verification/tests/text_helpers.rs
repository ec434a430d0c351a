use goldenstorm::helpers::{clean_string, opt_str, opt_str_ref};
use goldenstorm::text::{
    chars_of, collapse_ws_chars, contains_chars, decimal_i64, decimal_u64, is_whitespace_char,
    str_contains, str_eq, string_of, trim_chars,
};

fn s(v: &[char]) -> String {
    v.iter().collect()
}

#[test]
fn whitespace_matches_std_for_every_char() {
    for u in 0u32..=0x10FFFF {
        if let Some(c) = char::from_u32(u) {
            assert_eq!(is_whitespace_char(c), c.is_whitespace(), "code point {:#x}", u);
        }
    }
}

#[test]
fn clean_string_collapses_runs() {
    assert_eq!(clean_string("  Panama   City \t Beach\n"), "Panama City Beach");
    assert_eq!(clean_string(""), "");
    assert_eq!(clean_string(" \u{3000}\u{a0} "), "");
    assert_eq!(clean_string("one"), "one");
    assert_eq!(clean_string("a\u{2003}b"), "a b");
}

#[test]
fn clean_string_is_idempotent_on_examples() {
    for t in ["  a  b ", "x", "", "\t\ty z\n\n w  "] {
        let once = clean_string(t);
        assert_eq!(clean_string(&once), once);
        let std_once = t.split_whitespace().collect::<Vec<_>>().join(" ");
        assert_eq!(once, std_once);
    }
}

#[test]
fn opt_str_trims_or_is_empty() {
    assert_eq!(opt_str(Some("  Warner Robins \n".to_string())), "Warner Robins");
    assert_eq!(opt_str(None), "");
    assert_eq!(opt_str(Some("   ".to_string())), "");
    assert_eq!(opt_str_ref(Some("\t inner  space \t")), "inner  space");
    assert_eq!(opt_str_ref(None), "");
}

#[test]
fn trim_matches_std() {
    for t in ["  a b  ", "", "   ", "x", "\u{85}y\u{2028}", "a\n"] {
        let c = chars_of(t);
        assert_eq!(s(&trim_chars(&c)), t.trim());
        assert_eq!(s(&trim_chars(&trim_chars(&c))), t.trim());
        assert_eq!(s(&collapse_ws_chars(&c)), t.split_whitespace().collect::<Vec<_>>().join(" "));
    }
}

#[test]
fn contains_finds_runs() {
    assert!(str_contains("severe thunderstorm warning", "thunderstorm"));
    assert!(!str_contains("watch", "warning"));
    assert!(str_contains("abc", ""));
    assert!(!str_contains("", "a"));
    assert!(contains_chars(&chars_of("aab"), &chars_of("ab")));
    assert!(str_eq("Immediate", "Immediate"));
    assert!(!str_eq("Immediate", "immediate"));
}

#[test]
fn decimals_match_display() {
    for n in [0u64, 7, 10, 42, 1005, u64::MAX] {
        assert_eq!(s(&decimal_u64(n)), n.to_string());
    }
    for n in [0i64, -1, 99, -80, i64::MIN, i64::MAX] {
        assert_eq!(s(&decimal_i64(n)), n.to_string());
    }
    assert_eq!(string_of(&vec!['h', 'i']), "hi");
}
