use check_if_email_exists::text::{
    chars_of, copy_texts, find, found_at, has_suffix, join, push_chars, to_lower, to_lower_char,
};

fn chars(text: &str) -> Vec<char> {
    text.chars().collect()
}

#[test]
fn chars_of_gives_the_characters() {
    assert_eq!(chars_of("héllo"), vec!['h', 'é', 'l', 'l', 'o']);
    assert_eq!(chars_of(""), Vec::<char>::new());
}

#[test]
fn push_chars_appends() {
    let mut out = chars("ab");
    push_chars(&mut out, "cd");
    assert_eq!(out, chars("abcd"));
    push_chars(&mut out, "");
    assert_eq!(out, chars("abcd"));
}

#[test]
fn lower_folds_ascii_capitals_only() {
    assert_eq!(to_lower_char('A'), 'a');
    assert_eq!(to_lower_char('Z'), 'z');
    assert_eq!(to_lower_char('a'), 'a');
    assert_eq!(to_lower_char('@'), '@');
    assert_eq!(to_lower_char('['), '[');
    assert_eq!(to_lower_char('É'), 'É');
    assert_eq!(to_lower(&chars("MX1.Example.ORG.")), chars("mx1.example.org."));
    assert_eq!(to_lower(&chars("")), chars(""));
}

#[test]
fn find_finds_every_position() {
    assert!(find(&chars("mx.zoho.com."), &chars(".zoho.com.")));
    assert!(find(&chars("mx.zoho.com."), &chars("mx")));
    assert!(find(&chars("mx.zoho.com."), &chars("com.")));
    assert!(find(&chars("mx.zoho.com."), &chars("mx.zoho.com.")));
    assert!(!find(&chars("mx.zoho.com."), &chars("zoho.net")));
    assert!(!find(&chars("mx.zoho.com."), &chars("mx.zoho.com..")));
    assert!(!find(&chars("aab"), &chars("abb")));
    assert!(find(&chars("aaab"), &chars("aab")));
}

#[test]
fn the_empty_text_is_found_everywhere() {
    assert!(find(&chars("abc"), &chars("")));
    assert!(find(&chars(""), &chars("")));
    assert!(!find(&chars(""), &chars("a")));
}

#[test]
fn found_at_looks_at_one_position() {
    assert!(found_at(&chars("abcabc"), &chars("bc"), 1));
    assert!(found_at(&chars("abcabc"), &chars("bc"), 4));
    assert!(!found_at(&chars("abcabc"), &chars("bc"), 0));
    assert!(!found_at(&chars("abcabc"), &chars("bc"), 5));
    assert!(!found_at(&chars("abcabc"), &chars("bc"), 7));
    assert!(found_at(&chars("abc"), &chars(""), 3));
    assert!(!found_at(&chars("abc"), &chars(""), 4));
}

#[test]
fn has_suffix_looks_at_the_end() {
    assert!(has_suffix(&chars("mta5.am0.yahoodns.net."), &chars(".yahoodns.net.")));
    assert!(!has_suffix(&chars("mta5.am0.yahoodns.net.example.org."), &chars(".yahoodns.net.")));
    assert!(!has_suffix(&chars("net."), &chars(".yahoodns.net.")));
    assert!(has_suffix(&chars("abc"), &chars("")));
}

#[test]
fn join_puts_the_separator_between() {
    let lines = vec!["a".to_string(), "b".to_string(), "c".to_string()];
    assert_eq!(join(&lines, "; "), chars("a; b; c"));
    assert_eq!(join(&vec!["only".to_string()], "; "), chars("only"));
    assert_eq!(join(&Vec::new(), "; "), chars(""));
    assert_eq!(join(&vec!["".to_string(), "".to_string()], "; "), chars("; "));
}

#[test]
fn copy_texts_copies() {
    let texts = vec!["a".to_string(), "".to_string(), "c".to_string()];
    assert_eq!(copy_texts(&texts), texts);
    assert_eq!(copy_texts(&Vec::new()), Vec::<String>::new());
}
