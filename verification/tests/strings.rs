//! Strings, and maps of them.

use network_operator::string_map::StringMap;
use network_operator::text::{
    contains, dash_separators, decimal_string, is_blank, join, signed_decimal_string, standing,
    Standing,
};

#[test]
fn numbers_are_written_in_decimal() {
    for n in [0, 7, 10, 255, 6443, u64::MAX] {
        assert_eq!(decimal_string(n), n.to_string());
    }
    for n in [0, -1, 42, -9000, i64::MAX, i64::MIN] {
        assert_eq!(signed_decimal_string(n), n.to_string());
    }
}

#[test]
fn searching_agrees_with_the_standard_library() {
    let texts = ["", "a", "aab", "no matches for kind \"X\"", "aaab"];
    for hay in texts {
        for needle in texts {
            assert_eq!(contains(hay, needle), hay.contains(needle), "{hay:?} {needle:?}");
        }
    }
    assert!(contains("aaab", "aab"));
}

#[test]
fn blank_text_is_what_trimming_empties() {
    for text in ["", " ", "\t\r\n", "\u{a0}\u{2003}\u{3000}", "x", " x ", "\u{200b}"] {
        assert_eq!(is_blank(text), text.trim().is_empty(), "{text:?}");
    }
}

#[test]
fn joining_and_dashing() {
    let parts: Vec<String> = ["a", "", "b"].iter().map(|s| s.to_string()).collect();
    assert_eq!(join(&parts, ", "), "a, , b");
    assert_eq!(join(&Vec::new(), ","), "");
    assert_eq!(dash_separators("192.168.8.1"), "192-168-8-1");
    assert_eq!(dash_separators("fd00::1"), "fd00--1");
}

#[test]
fn strings_are_ordered_as_the_standard_library_orders_them() {
    let texts = ["", "a", "aa", "ab", "b", "k8s-app", "name", "\u{e9}"];
    for a in texts {
        for b in texts {
            let expected = if a < b {
                Standing::Before
            } else if a == b {
                Standing::Same
            } else {
                Standing::After
            };
            assert_eq!(standing(a, b), expected, "{a:?} {b:?}");
        }
    }
}

#[test]
fn a_map_keeps_its_keys_in_order_however_it_was_filled() {
    let mut a = StringMap::new();
    a.insert("name", "x");
    a.insert("k8s-app", "cilium");
    a.insert("name", "cilium-operator");
    a.insert("io.cilium/app", "operator");

    let mut b = StringMap::new();
    b.insert("io.cilium/app", "operator");
    b.insert("k8s-app", "cilium");
    b.insert("name", "cilium-operator");

    assert_eq!(a, b);
    let keys: Vec<&str> = a.pairs().iter().map(|(k, _)| k.as_str()).collect();
    assert_eq!(keys, ["io.cilium/app", "k8s-app", "name"]);
    assert_eq!(a.get("name").unwrap(), "cilium-operator");
    assert_eq!(a.get("missing"), None);
    assert!(a.contains_key("k8s-app"));
    assert_eq!(a.clone(), a);
}
