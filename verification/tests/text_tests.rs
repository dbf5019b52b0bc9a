use homebot::text::{
    chars_of, contains_u64, filter_alphanumeric, parse_u64, replace_all, same_text, string_of,
    truncate_to_bytes,
};

#[test]
fn parse_u64_reads_plain_digits() {
    assert_eq!(parse_u64("42"), Some(42));
    assert_eq!(parse_u64("007"), Some(7));
    assert_eq!(parse_u64("806947535825403904"), Some(806947535825403904));
}

#[test]
fn parse_u64_accepts_a_leading_plus() {
    assert_eq!(parse_u64("+7"), Some(7));
    assert_eq!(parse_u64("+"), None);
    assert_eq!(parse_u64("++7"), None);
}

#[test]
fn parse_u64_refuses_what_std_refuses() {
    for s in ["", "-1", "-0", "1a", " 1", "1 ", "1.0", "٣"] {
        assert_eq!(parse_u64(s), s.parse::<u64>().ok(), "input {:?}", s);
        assert_eq!(parse_u64(s), None, "input {:?}", s);
    }
}

#[test]
fn parse_u64_limits() {
    assert_eq!(parse_u64("18446744073709551615"), Some(u64::MAX));
    assert_eq!(parse_u64("18446744073709551616"), None);
    assert_eq!(parse_u64("99999999999999999999"), None);
    assert_eq!(parse_u64("0000000000000000000018446744073709551615"), Some(u64::MAX));
}

#[test]
fn replace_all_removes_every_occurrence() {
    assert_eq!(replace_all("abc.x.yz.x", ".x", ""), "abc.yz");
    assert_eq!(replace_all("aaaa", "aa", "b"), "bb");
    assert_eq!(replace_all("aaa", "aa", "b"), "ba");
    assert_eq!(replace_all("hello", "zz", "q"), "hello");
    assert_eq!(replace_all("", "a", "b"), "");
    assert_eq!(replace_all("ab", "b", "éé"), "aéé");
}

#[test]
fn replace_all_agrees_with_std() {
    for (s, p, r) in [("x.homebot.freemyip.com", ".homebot.freemyip.com", ""), ("ababab", "aba", "-"), ("ñañaña", "ña", "x")] {
        assert_eq!(replace_all(s, p, r), s.replace(p, r));
    }
}

#[test]
fn filter_alphanumeric_keeps_letters_and_digits() {
    assert_eq!(filter_alphanumeric("Bunni_Pog 123!"), "BunniPog123");
    assert_eq!(filter_alphanumeric("Ünï-cødé ½"), "Ünïcødé½");
    assert_eq!(filter_alphanumeric("!!!"), "");
}

#[test]
fn truncate_to_bytes_cuts_at_char_boundaries() {
    let v: Vec<char> = "aaaa".chars().collect();
    assert_eq!(truncate_to_bytes(&v, 2), Some("aa".to_string()));
    assert_eq!(truncate_to_bytes(&v, 10), Some("aaaa".to_string()));
    let w: Vec<char> = "aé".chars().collect();
    assert_eq!(truncate_to_bytes(&w, 2), None);
    assert_eq!(truncate_to_bytes(&w, 3), Some("aé".to_string()));
    assert_eq!(truncate_to_bytes(&w, 1), Some("a".to_string()));
}

#[test]
fn char_helpers() {
    assert!(same_text("room", "room"));
    assert!(!same_text("room", "rooms"));
    assert!(!same_text("room", "roam"));
    assert!(contains_u64(&vec![1, 2, 3], 2));
    assert!(!contains_u64(&vec![1, 2, 3], 4));
    let v = chars_of("héllo");
    assert_eq!(v, vec!['h', 'é', 'l', 'l', 'o']);
    assert_eq!(string_of(&v, 1, 3), "él");
}
