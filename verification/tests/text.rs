use miohttp::text::{append_bytes, bytes_eq, eq_ignore_case, parse_usize, push_decimal, str_eq, tail_bytes};

#[test]
fn parse_plain_numbers() {
    assert_eq!(parse_usize(b"0"), Some(0));
    assert_eq!(parse_usize(b"7"), Some(7));
    assert_eq!(parse_usize(b"10"), Some(10));
    assert_eq!(parse_usize(b"2048"), Some(2048));
    assert_eq!(parse_usize(b"007"), Some(7));
}

#[test]
fn parse_accepts_a_plus_sign() {
    assert_eq!(parse_usize(b"+5"), Some(5));
    assert_eq!(parse_usize(b"+0"), Some(0));
}

#[test]
fn parse_refuses_what_is_no_number() {
    assert_eq!(parse_usize(b""), None);
    assert_eq!(parse_usize(b"+"), None);
    assert_eq!(parse_usize(b"-1"), None);
    assert_eq!(parse_usize(b"++1"), None);
    assert_eq!(parse_usize(b"1+"), None);
    assert_eq!(parse_usize(b"1a"), None);
    assert_eq!(parse_usize(b"a1"), None);
    assert_eq!(parse_usize(b" 1"), None);
    assert_eq!(parse_usize(b"1 "), None);
    assert_eq!(parse_usize(b"1_000"), None);
    assert_eq!(parse_usize(b"0x10"), None);
    assert_eq!(parse_usize("\u{661}".as_bytes()), None);
}

#[test]
fn parse_at_the_limit() {
    let max = usize::MAX.to_string();
    assert_eq!(parse_usize(max.as_bytes()), Some(usize::MAX));
    let mut over = max.clone();
    over.push('0');
    assert_eq!(parse_usize(over.as_bytes()), None);
    let mut digits: Vec<u8> = max.into_bytes();
    let last = digits.len() - 1;
    if digits[last] < b'9' {
        digits[last] += 1;
        assert_eq!(parse_usize(&digits), None);
    }
    assert_eq!(parse_usize(b"99999999999999999999999999999999999999999"), None);
}

#[test]
fn parse_agrees_with_std() {
    let samples: [&str; 12] = ["0", "1", "+1", "-0", "12345", "00012", "", "+", "1e3", "18446744073709551615", "18446744073709551616", "4294967296"];
    for s in samples.iter() {
        assert_eq!(parse_usize(s.as_bytes()), s.parse::<usize>().ok(), "{}", s);
    }
}

#[test]
fn decimal_is_written_without_leading_zeros() {
    let numbers: [usize; 9] = [0, 1, 9, 10, 11, 99, 100, 2048, usize::MAX];
    for n in numbers.iter() {
        let mut text = String::from("n=");
        push_decimal(&mut text, *n);
        assert_eq!(text, format!("n={}", n));
    }
}

#[test]
fn decimal_round_trip() {
    let numbers: [usize; 6] = [0, 5, 10, 123, 65535, usize::MAX];
    for n in numbers.iter() {
        let mut text = String::new();
        push_decimal(&mut text, *n);
        assert_eq!(parse_usize(text.as_bytes()), Some(*n));
    }
}

#[test]
fn names_compare_without_case() {
    assert!(eq_ignore_case(b"Content-Length", b"content-length"));
    assert!(eq_ignore_case(b"CONNECTION", b"connection"));
    assert!(eq_ignore_case(b"", b""));
    assert!(eq_ignore_case(b"a-Z", b"A-z"));
    assert!(!eq_ignore_case(b"Content-Length", b"Content-Lengt"));
    assert!(!eq_ignore_case(b"Content-Length", b"Content_Length"));
    assert!(!eq_ignore_case(b"a", b"b"));
    // '@' and '`' stand next to the letters and are no letters.
    assert!(!eq_ignore_case(b"@", b"`"));
    assert!(!eq_ignore_case(b"[", b"{"));
}

#[test]
fn names_with_bytes_beyond_ascii() {
    assert!(eq_ignore_case("Stra\u{df}e".as_bytes(), "stra\u{df}E".as_bytes()));
    // Only ASCII letters are folded.
    assert!(!eq_ignore_case("\u{c4}".as_bytes(), "\u{e4}".as_bytes()));
}

#[test]
fn bytes_and_strings_compare_exactly() {
    assert!(bytes_eq(b"abc", b"abc"));
    assert!(bytes_eq(b"", b""));
    assert!(!bytes_eq(b"abc", b"abd"));
    assert!(!bytes_eq(b"abc", b"ab"));
    assert!(!bytes_eq(b"abc", b"ABC"));
    assert!(str_eq("keep-alive", "keep-alive"));
    assert!(!str_eq("keep-alive", "Keep-Alive"));
    assert!(!str_eq("a", ""));
    assert!(str_eq("\u{17c}\u{f3}\u{142}w", "\u{17c}\u{f3}\u{142}w"));
}

#[test]
fn append_and_tail() {
    let mut v: Vec<u8> = vec![1, 2];
    append_bytes(&mut v, &[3, 4, 5]);
    assert_eq!(v, vec![1, 2, 3, 4, 5]);
    append_bytes(&mut v, &[]);
    assert_eq!(v, vec![1, 2, 3, 4, 5]);
    assert_eq!(tail_bytes(&v, 0), vec![1, 2, 3, 4, 5]);
    assert_eq!(tail_bytes(&v, 3), vec![4, 5]);
    assert_eq!(tail_bytes(&v, 5), Vec::<u8>::new());
    assert_eq!(tail_bytes(&v, 9), Vec::<u8>::new());
}

#[test]
fn folding_agrees_with_std_on_every_pair_of_bytes() {
    for a in 0..=255u8 {
        for b in 0..=255u8 {
            assert_eq!(eq_ignore_case(&[a], &[b]), a.eq_ignore_ascii_case(&b), "{} {}", a, b);
        }
    }
}

#[test]
fn parse_agrees_with_std_on_short_strings() {
    let alphabet: [u8; 6] = [b'0', b'1', b'9', b'+', b'-', b' '];
    let mut text: Vec<u8> = Vec::new();
    for length in 0..5usize {
        let mut index = vec![0usize; length];
        loop {
            text.clear();
            for i in index.iter() {
                text.push(alphabet[*i]);
            }
            let expected = std::str::from_utf8(&text).unwrap().parse::<usize>().ok();
            assert_eq!(parse_usize(&text), expected, "{:?}", text);
            let mut at = 0;
            while at < length {
                index[at] += 1;
                if index[at] < alphabet.len() {
                    break;
                }
                index[at] = 0;
                at += 1;
            }
            if at == length {
                break;
            }
        }
    }
}
