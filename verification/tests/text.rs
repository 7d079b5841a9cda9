use backend_supervisor::lines::{find_line_with_prefix, line_at, skip_whitespace, token_bounds, token_end};
use backend_supervisor::notes::{clone_list, clone_opt, opt_as_str, push_optional};
use backend_supervisor::numbers::{decimal_string, is_unsigned, parse_unsigned};
use backend_supervisor::search::{
    bytes_occur_at, chars_contain, chars_contain_char, chars_occur_at, chars_start_with,
    find_bytes, find_bytes_from, position_from,
};
use backend_supervisor::text::{
    char_is_whitespace, chars_eq_ignoring_ascii_case, chars_equal, chars_of, lower_char,
    lower_chars, owned, str_equal, string_of, trim_bounds, trim_chars, trim_str,
};

const SAMPLES: &[&str] = &[
    "",
    " ",
    "a",
    "  a b  ",
    "\t\r\n x \u{a0}\u{3000}",
    "\u{85}\u{1680}y\u{2028}\u{2029}\u{202f}\u{205f}\u{200a}",
    "\u{200b}zero width is no space\u{200b}",
    "line one\nline two\r\nline three\rstill three\n",
    "\n\n",
    "\r\n",
    "no newline at end\r",
    "HTTP/1.1  200\tOK\r\nContent-Length: 5\r\n\r\n",
    "ÄÖÜ Straße İstanbul",
    "MiXeD CaSe 123 [\\]^_`{|}~@",
];

fn chars(text: &str) -> Vec<char> {
    text.chars().collect()
}

#[test]
fn whitespace_and_lower_case_agree_with_the_standard_library() {
    for code in 0..=0x10ffffu32 {
        if let Some(c) = char::from_u32(code) {
            assert_eq!(char_is_whitespace(c), c.is_whitespace(), "U+{code:04X}");
            assert_eq!(lower_char(c), c.to_ascii_lowercase(), "U+{code:04X}");
        }
    }
}

#[test]
fn conversions_keep_every_character() {
    for sample in SAMPLES {
        assert_eq!(chars_of(sample), chars(sample));
        assert_eq!(string_of(&chars(sample)), *sample);
        assert_eq!(owned(sample), *sample);
        assert_eq!(lower_chars(&chars(sample)), chars(&sample.to_ascii_lowercase()));
        for other in SAMPLES {
            assert_eq!(str_equal(sample, other), sample == other);
            assert_eq!(chars_equal(&chars(sample), &chars(other)), sample == other);
            assert_eq!(
                chars_eq_ignoring_ascii_case(&chars(sample), &chars(other)),
                sample.eq_ignore_ascii_case(other)
            );
        }
        assert!(chars_eq_ignoring_ascii_case(
            &chars(sample),
            &chars(&sample.to_ascii_uppercase())
        ));
    }
}

#[test]
fn trimming_agrees_with_the_standard_library() {
    for sample in SAMPLES {
        assert_eq!(trim_str(sample), sample.trim(), "{sample:?}");
        let v = chars(sample);
        assert_eq!(trim_chars(&v), chars(sample.trim()).as_slice());
        let (from, to) = trim_bounds(&v);
        assert_eq!(&v[from..to], chars(sample.trim()).as_slice());
    }
}

fn lines_of(text: &str) -> Vec<String> {
    let v = chars(text);
    let mut lines = Vec::new();
    let mut start = 0;
    while start < v.len() {
        let (end, next) = line_at(&v, start);
        lines.push(v[start..end].iter().collect());
        start = next;
    }
    lines
}

fn tokens_of(text: &str) -> Vec<String> {
    let v = chars(text);
    let mut tokens = Vec::new();
    let mut n = 0;
    while let Some((from, to)) = token_bounds(&v, n) {
        tokens.push(v[from..to].iter().collect());
        n += 1;
    }
    tokens
}

#[test]
fn lines_and_tokens_agree_with_the_standard_library() {
    for sample in SAMPLES {
        let expected: Vec<String> = sample.lines().map(str::to_string).collect();
        assert_eq!(lines_of(sample), expected, "{sample:?}");
        let expected: Vec<String> = sample.split_whitespace().map(str::to_string).collect();
        assert_eq!(tokens_of(sample), expected, "{sample:?}");
    }
    let v = chars("  ab  c");
    assert_eq!(skip_whitespace(&v, 0), 2);
    assert_eq!(skip_whitespace(&v, 3), 3);
    assert_eq!(skip_whitespace(&v, 7), 7);
    assert_eq!(token_end(&v, 2), 4);
    assert_eq!(token_end(&v, 4), 4);
    assert_eq!(token_end(&v, 6), 7);
}

#[test]
fn first_line_with_prefix_is_found() {
    let v = chars("a: 1\r\nkey: one\nkey: two\nkey");
    let key = chars("key:");
    let (from, to) = find_line_with_prefix(&v, &key).expect("line");
    assert_eq!(v[from..to].iter().collect::<String>(), " one");
    assert_eq!(find_line_with_prefix(&v, &chars("b:")), None);
    assert_eq!(find_line_with_prefix(&v, &chars("key: two\n")), None);
    let (from, to) = find_line_with_prefix(&v, &chars("")).expect("line");
    assert_eq!(v[from..to].iter().collect::<String>(), "a: 1");
    assert_eq!(find_line_with_prefix(&chars(""), &chars("")), None);
}

const NUMBERS: &[&str] = &[
    "", "0", "00", "7", "+7", "-7", "++7", "+", " 7", "7 ", "65535", "65536", "ff", "FF", "fF",
    "0x10", "g", "1_000", "１２", "18446744073709551615", "18446744073709551616",
    "340282366920938463463374607431768211455", "340282366920938463463374607431768211456",
    "ffffffffffffffff", "10000000000000000", "ffffffffffffffffffffffffffffffff",
    "100000000000000000000000000000000", "zz", "Zz", "+0", "000000000000000000000000000000000000001",
];

#[test]
fn parsing_agrees_with_the_standard_library() {
    for text in NUMBERS {
        let v = chars(text);
        assert_eq!(
            parse_unsigned(&v, 10, u16::MAX as u128),
            text.parse::<u16>().ok().map(u128::from),
            "{text:?} as u16"
        );
        assert_eq!(
            parse_unsigned(&v, 10, u64::MAX as u128),
            text.parse::<u64>().ok().map(u128::from),
            "{text:?} as u64"
        );
        assert_eq!(parse_unsigned(&v, 10, u128::MAX), text.parse::<u128>().ok(), "{text:?} as u128");
        assert_eq!(
            parse_unsigned(&v, 16, u64::MAX as u128),
            u64::from_str_radix(text, 16).ok().map(u128::from),
            "{text:?} as hex u64"
        );
        assert_eq!(
            parse_unsigned(&v, 16, u128::MAX),
            u128::from_str_radix(text, 16).ok(),
            "{text:?} as hex u128"
        );
        assert_eq!(
            parse_unsigned(&v, 36, u128::MAX),
            u128::from_str_radix(text, 36).ok(),
            "{text:?} in radix 36"
        );
        assert_eq!(parse_unsigned(&v, 2, 1), u8::from_str_radix(text, 2).ok().filter(|n| *n <= 1).map(u128::from));
    }
    for text in NUMBERS {
        let v = chars(text);
        let digits = text.strip_prefix('+').unwrap_or(text);
        let decimal = !digits.is_empty() && digits.chars().all(|c| c.is_ascii_digit());
        assert_eq!(is_unsigned(&v, 10), decimal, "{text:?}");
        let hex = !digits.is_empty() && digits.chars().all(|c| c.is_ascii_hexdigit());
        assert_eq!(is_unsigned(&v, 16), hex, "{text:?}");
        assert!(is_unsigned(&v, 10) || parse_unsigned(&v, 10, u128::MAX).is_none());
    }
    assert_eq!(parse_unsigned(&chars("5"), 10, 4), None);
    assert_eq!(parse_unsigned(&chars("0"), 10, 0), Some(0));
}

#[test]
fn decimal_rendering_agrees_with_the_standard_library() {
    for n in [0u64, 1, 9, 10, 11, 99, 100, 101, 12345, 4294967295, 4294967296, u64::MAX - 1, u64::MAX] {
        assert_eq!(decimal_string(n), n.to_string());
    }
    for n in 0..2000u64 {
        assert_eq!(decimal_string(n), n.to_string());
    }
}

#[test]
fn searching_finds_the_first_occurrence() {
    let hay = b"abcabcabd";
    assert_eq!(find_bytes(hay, b"abc"), Some(0));
    assert_eq!(find_bytes(hay, b"abd"), Some(6));
    assert_eq!(find_bytes(hay, b"abx"), None);
    assert_eq!(find_bytes(hay, b""), Some(0));
    assert_eq!(find_bytes(b"", b""), Some(0));
    assert_eq!(find_bytes(b"", b"a"), None);
    assert_eq!(find_bytes(b"ab", b"abc"), None);
    assert_eq!(find_bytes_from(hay, b"abc", 1), Some(3));
    assert_eq!(find_bytes_from(hay, b"abc", 4), None);
    assert_eq!(find_bytes_from(hay, b"", 9), Some(9));
    assert_eq!(find_bytes_from(hay, b"", 10), None);
    assert_eq!(find_bytes_from(hay, b"a", usize::MAX), None);
    assert!(bytes_occur_at(hay, b"bca", 1));
    assert!(!bytes_occur_at(hay, b"bca", 2));
    assert!(!bytes_occur_at(hay, b"bd", 8));
    assert!(bytes_occur_at(hay, b"", 9));
    assert!(!bytes_occur_at(hay, b"", 10));
    for sample in SAMPLES {
        let v = chars(sample);
        for needle in ["", " ", "\r\n", "line", "ß", "e t", "\n\n"] {
            let n = chars(needle);
            assert_eq!(chars_contain(&v, &n), sample.contains(needle), "{sample:?} {needle:?}");
            assert_eq!(chars_start_with(&v, &n), sample.starts_with(needle));
            assert_eq!(chars_occur_at(&v, &n, 0), sample.starts_with(needle));
        }
        for c in ['\r', '\n', ' ', 'ß', 'x'] {
            assert_eq!(chars_contain_char(&v, c), sample.contains(c));
            let expected = v.iter().position(|seen| *seen == c).unwrap_or(v.len());
            assert_eq!(position_from(&v, c, 0), expected);
            assert_eq!(position_from(&v, c, v.len()), v.len());
        }
    }
}

#[test]
fn shared_helpers_copy_and_collect() {
    let mut notes = vec!["a".to_string()];
    push_optional(&mut notes, None);
    push_optional(&mut notes, Some("b".to_string()));
    assert_eq!(notes, vec!["a", "b"]);
    assert_eq!(clone_list(&notes), notes);
    assert_eq!(clone_list(&Vec::new()), Vec::<String>::new());
    assert_eq!(clone_opt(&Some("x".to_string())), Some("x".to_string()));
    assert_eq!(clone_opt(&None), None);
    assert_eq!(opt_as_str(&Some("x".to_string())), Some("x"));
    assert_eq!(opt_as_str(&None), None);
}
