use vyoma::number::{format_i64, format_u64, parse_u64, NumberError};
use vyoma::path::{choose_present, flatten_key, flatten_name, join_path};
use vyoma::text::{
    join, split_lines, split_once, split_whitespace, strip_prefix, trim, trim_start_matches,
};

const SAMPLES: [&str; 10] = [
    "",
    " ",
    "a b\tc",
    "  lead and trail \n",
    "one\ntwo\r\nthree\r",
    "\n\n",
    "a\u{3000}b\u{85}c\u{a0}",
    "key=value=more",
    "x\rx\n",
    "\u{200b}zero width",
];

#[test]
fn text_functions_agree_with_the_standard_library() {
    for s in SAMPLES {
        assert_eq!(trim(s), s.trim());
        assert_eq!(split_whitespace(s), s.split_whitespace().collect::<Vec<_>>());
        assert_eq!(split_lines(s), s.lines().collect::<Vec<_>>());
        let pair = split_once(s, '=');
        assert_eq!(pair, s.split_once('=').map(|(a, b)| (a.to_string(), b.to_string())));
    }
    for prefix in ["a", "ab", "one", "xyz"] {
        for s in ["ababc", "aaa", "", "one two", "b"] {
            assert_eq!(trim_start_matches(s, prefix), s.trim_start_matches(prefix));
            assert_eq!(strip_prefix(s, prefix), s.strip_prefix(prefix).map(|t| t.to_string()));
        }
    }
    assert_eq!(join(&vec!["a".to_string(), "b".to_string()], ", "), "a, b");
}

#[test]
fn numbers_agree_with_the_standard_library() {
    for n in [0, 7, 10, 99, 1234567890, u64::MAX] {
        assert_eq!(format_u64(n), n.to_string());
        assert_eq!(parse_u64(&n.to_string()), Ok(n));
    }
    for n in [0, -1, 42, i64::MIN, i64::MAX] {
        assert_eq!(format_i64(n), n.to_string());
    }
    for s in ["", "+", "-", "+7", "007", "1 ", "18446744073709551615", "18446744073709551616", "１", "9x9"] {
        let ours = parse_u64(s);
        assert_eq!(ours.ok(), s.parse::<u64>().ok());
    }
    assert_eq!(parse_u64(""), Err(NumberError::Empty));
    assert_eq!(parse_u64("1x"), Err(NumberError::InvalidDigit));
    assert_eq!(parse_u64("99999999999999999999"), Err(NumberError::PosOverflow));
}

#[test]
fn paths_agree_with_the_standard_library() {
    for base in ["", "/", "/a", "/a/", "rel", "a//"] {
        for tail in ["", "b", "b/c", "/abs", "./x"] {
            let theirs = std::path::Path::new(base).join(tail);
            assert_eq!(join_path(base, tail), theirs.to_string_lossy());
        }
    }
    assert_eq!(flatten_name("me/app:1\\x"), "me_app_1\\x");
    assert_eq!(flatten_key("me/app:1\\x"), "me_app_1_x");
}

#[test]
fn first_present_candidate_is_chosen() {
    let candidates = vec!["a".to_string(), "b".to_string(), "c".to_string()];
    assert_eq!(choose_present(&candidates, &vec![false, true, true]), Some("b".to_string()));
    assert_eq!(choose_present(&candidates, &vec![false, false, false]), None);
    assert_eq!(choose_present(&candidates, &vec![]), None);
}
