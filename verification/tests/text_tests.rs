use proctmux::text::{
    chars_of, contains, copy_str, decimal_of, is_text, le_chars, matches_at, parse_i32, parse_u8,
    same_chars, same_text, split, starts_with, string_of, strip_final_newline,
};

fn text_cs(s: &str) -> Vec<char> {
    s.chars().collect()
}

#[test]
fn chars_and_strings_convert_both_ways() {
    assert_eq!(chars_of("a▶b"), vec!['a', '▶', 'b']);
    assert_eq!(chars_of(""), Vec::<char>::new());
    assert_eq!(string_of(&vec!['x', 'é', 'z']), "xéz".to_string());
    assert_eq!(string_of(&vec![]), String::new());
    assert_eq!(copy_str("tmux"), "tmux".to_string());
}

#[test]
fn equality_of_texts() {
    assert!(same_chars(&text_cs("abc"), &text_cs("abc")));
    assert!(!same_chars(&text_cs("abc"), &text_cs("abd")));
    assert!(!same_chars(&text_cs("abc"), &text_cs("ab")));
    assert!(same_text("", ""));
    assert!(!same_text("a", ""));
    assert!(is_text(&text_cs("ansi"), "ansi"));
    assert!(!is_text(&text_cs("ansi"), "ANSI"));
    assert!(is_text(&text_cs(""), ""));
}

#[test]
fn search_finds_every_position() {
    let hay = text_cs("hello world");
    assert!(contains(&hay, &text_cs("hello")));
    assert!(contains(&hay, &text_cs("world")));
    assert!(contains(&hay, &text_cs("o w")));
    assert!(contains(&hay, &text_cs("")));
    assert!(!contains(&hay, &text_cs("worlds")));
    assert!(!contains(&text_cs(""), &text_cs("a")));
    assert!(contains(&text_cs(""), &text_cs("")));
    assert!(matches_at(&text_cs("lo"), &hay, 3));
    assert!(!matches_at(&text_cs("lo"), &hay, 4));
    assert!(!matches_at(&text_cs("ld!"), &hay, 9));
    assert!(!matches_at(&text_cs("a"), &hay, 100));
    assert!(starts_with(&hay, &text_cs("hell")));
    assert!(starts_with(&hay, &text_cs("")));
    assert!(!starts_with(&hay, &text_cs("ello")));
}

#[test]
fn split_keeps_empty_pieces() {
    assert_eq!(split(&text_cs("a,b,c"), ','), vec![text_cs("a"), text_cs("b"), text_cs("c")]);
    assert_eq!(split(&text_cs(""), ','), vec![text_cs("")]);
    assert_eq!(split(&text_cs(","), ','), vec![text_cs(""), text_cs("")]);
    assert_eq!(split(&text_cs("a,,b,"), ','), vec![text_cs("a"), text_cs(""), text_cs("b"), text_cs("")]);
    assert_eq!(split(&text_cs("abc"), ','), vec![text_cs("abc")]);
}

#[test]
fn bytes_are_parsed_as_rust_parses_them() {
    assert_eq!(parse_u8(&text_cs("0")), Some(0));
    assert_eq!(parse_u8(&text_cs("255")), Some(255));
    assert_eq!(parse_u8(&text_cs("+7")), Some(7));
    assert_eq!(parse_u8(&text_cs("007")), Some(7));
    assert_eq!(parse_u8(&text_cs("256")), None);
    assert_eq!(parse_u8(&text_cs("")), None);
    assert_eq!(parse_u8(&text_cs("+")), None);
    assert_eq!(parse_u8(&text_cs("-1")), None);
    assert_eq!(parse_u8(&text_cs(" 1")), None);
    assert_eq!(parse_u8(&text_cs("1a")), None);
    assert_eq!(parse_u8(&text_cs("99999999999999999999999")), None);
    for n in 0..=255u8 {
        let text: Vec<char> = n.to_string().chars().collect();
        assert_eq!(parse_u8(&text), Some(n));
    }
}

#[test]
fn signed_numbers_are_parsed_as_rust_parses_them() {
    assert_eq!(parse_i32(&text_cs("12345")), Some(12345));
    assert_eq!(parse_i32(&text_cs("-12345")), Some(-12345));
    assert_eq!(parse_i32(&text_cs("+12")), Some(12));
    assert_eq!(parse_i32(&text_cs("-0")), Some(0));
    assert_eq!(parse_i32(&text_cs("2147483647")), Some(i32::MAX));
    assert_eq!(parse_i32(&text_cs("2147483648")), None);
    assert_eq!(parse_i32(&text_cs("-2147483648")), Some(i32::MIN));
    assert_eq!(parse_i32(&text_cs("-2147483649")), None);
    assert_eq!(parse_i32(&text_cs("-")), None);
    assert_eq!(parse_i32(&text_cs("+-1")), None);
    assert_eq!(parse_i32(&text_cs("")), None);
    assert_eq!(parse_i32(&text_cs("12 ")), None);
    for s in ["0", "-1", "+5", "42", "x", "--1", "1-", "2147483647", "-2147483648", "99999999999"] {
        assert_eq!(parse_i32(&text_cs(s)), s.parse::<i32>().ok());
    }
}

#[test]
fn numbers_are_written_in_decimal() {
    assert_eq!(decimal_of(0), text_cs("0"));
    assert_eq!(decimal_of(7), text_cs("7"));
    assert_eq!(decimal_of(10), text_cs("10"));
    assert_eq!(decimal_of(1234567890), text_cs("1234567890"));
    assert_eq!(string_of(&decimal_of(usize::MAX)), usize::MAX.to_string());
}

#[test]
fn one_final_newline_is_stripped() {
    assert_eq!(strip_final_newline(&text_cs("%1\n")), text_cs("%1"));
    assert_eq!(strip_final_newline(&text_cs("%1")), text_cs("%1"));
    assert_eq!(strip_final_newline(&text_cs("a\nb\n")), text_cs("a\nb"));
    assert_eq!(strip_final_newline(&text_cs("a\n\n")), text_cs("a\n"));
    assert_eq!(strip_final_newline(&text_cs("")), text_cs(""));
}

#[test]
fn texts_are_ordered_as_in_the_dictionary() {
    assert!(le_chars(&text_cs(""), &text_cs("")));
    assert!(le_chars(&text_cs(""), &text_cs("a")));
    assert!(!le_chars(&text_cs("a"), &text_cs("")));
    assert!(le_chars(&text_cs("a"), &text_cs("b")));
    assert!(!le_chars(&text_cs("b"), &text_cs("a")));
    assert!(le_chars(&text_cs("ab"), &text_cs("abc")));
    assert!(!le_chars(&text_cs("abc"), &text_cs("ab")));
    assert!(le_chars(&text_cs("Z"), &text_cs("a")));
    assert!(le_chars(&text_cs("same"), &text_cs("same")));
    for (a, b) in [("tail", "web"), ("é", "z"), ("z", "é"), ("a1", "a")] {
        assert_eq!(le_chars(&text_cs(a), &text_cs(b)), a <= b);
    }
}

fn text_samples() -> Vec<String> {
    let alphabet = ['a', 'b', ',', 'é'];
    let mut all = vec![String::new()];
    let mut last = vec![String::new()];
    for _ in 0..4 {
        let mut next = vec![];
        for s in &last {
            for c in alphabet {
                let mut t = s.clone();
                t.push(c);
                next.push(t);
            }
        }
        all.extend(next.iter().cloned());
        last = next;
    }
    all
}

#[test]
fn search_agrees_with_the_standard_library() {
    let samples = text_samples();
    for hay in samples.iter().step_by(3) {
        for needle in samples.iter().take(85) {
            let h = text_cs(hay);
            let n = text_cs(needle);
            assert_eq!(contains(&h, &n), hay.contains(needle.as_str()));
            assert_eq!(starts_with(&h, &n), hay.starts_with(needle.as_str()));
            assert_eq!(same_chars(&h, &n), hay == needle);
            assert_eq!(le_chars(&h, &n), hay <= needle);
        }
    }
}

#[test]
fn split_agrees_with_the_standard_library() {
    for s in text_samples() {
        let want: Vec<Vec<char>> = s.split(',').map(|p| p.chars().collect()).collect();
        assert_eq!(split(&text_cs(&s), ','), want);
        assert_eq!(string_of(&chars_of(&s)), s);
    }
}

#[test]
fn numbers_agree_with_the_standard_library() {
    let digits = ['0', '1', '9', '+', '-', 'x'];
    let mut texts = vec![String::new()];
    let mut last = vec![String::new()];
    for _ in 0..4 {
        let mut next = vec![];
        for s in &last {
            for c in digits {
                let mut t = s.clone();
                t.push(c);
                next.push(t);
            }
        }
        texts.extend(next.iter().cloned());
        last = next;
    }
    for s in texts {
        assert_eq!(parse_i32(&text_cs(&s)), s.parse::<i32>().ok());
        assert_eq!(parse_u8(&text_cs(&s)), s.parse::<u8>().ok());
    }
    for n in [0usize, 1, 9, 10, 11, 99, 100, 101, 65535, 4294967295] {
        assert_eq!(string_of(&decimal_of(n)), n.to_string());
    }
}
