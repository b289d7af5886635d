use rand::Rng;
use vyoma::shell::{is_safe_char, shell_escape};

#[test]
fn test_shell_escape() {
    assert_eq!(shell_escape("simple"), "simple");
    assert_eq!(shell_escape("with-dash"), "with-dash");
    assert_eq!(shell_escape("with_underscore"), "with_underscore");
    assert_eq!(shell_escape("with'quote"), "'with'\\''quote'");
}

#[test]
fn test_shell_escape_fuzz() {
    let mut rng = rand::thread_rng();
    for _ in 0..10000 {
        let len = rng.gen_range(0..50);
        let mut s = String::new();
        for _ in 0..len {
            s.push(rng.gen_range(0u8..=127) as char);
        }
        let escaped = shell_escape(&s);
        let line = format!("export X={}", escaped);

        // Check for dangerous characters outside of quoted context. Inside single quotes a
        // backslash has no meaning, so only outside of them can it hide a quote.
        let mut in_single = false;
        for (i, c) in line.char_indices() {
            if c == '\'' && (in_single || i == 0 || line.as_bytes()[i - 1] != b'\\') {
                in_single = !in_single;
                continue;
            }
            if !in_single {
                if matches!(c, '`' | '$' | ';' | '|' | '&' | '(' | ')' | '{' | '}' | '#' | '!' | '~' | '\n' | '\r') {
                    panic!("Unsafe character '{}' found outside single quotes in: {}", c, line);
                }
            }
        }

        // Verify round-trip: unescape should yield original string
        let unescaped = unescape(&escaped);
        assert_eq!(unescaped, s, "Round-trip failed for {:?} -> {:?}", s, escaped);
    }
}

fn unescape(escaped: &str) -> String {
    if escaped.starts_with('\'') && escaped.ends_with('\'') {
        let inner = &escaped[1..escaped.len() - 1];
        inner.replace("'\\''", "'")
    } else {
        escaped.to_string()
    }
}

#[test]
fn test_shell_escape_injection_attempts() {
    // Test various injection attempts are properly escaped
    let injection_attempts = vec![
        "$(whoami)",
        "`whoami`",
        "${whoami}",
        "; rm -rf /",
        "| cat /etc/passwd",
        "& sleep 10",
        "$(echo pwned)",
        "`echo pwned`",
        "newline\ncommand",
        "newline\rcommand",
        "dollar$HOME",
        "backtick`id`",
    ];

    for attempt in injection_attempts {
        let escaped = shell_escape(attempt);
        // Escaped string should either be quoted or not contain dangerous chars
        if !escaped.starts_with('\'') {
            // Unquoted - check no dangerous chars
            assert!(!escaped.contains('$'), "Unquoted string contains $: {} -> {}", attempt, escaped);
            assert!(!escaped.contains('`'), "Unquoted string contains backtick: {} -> {}", attempt, escaped);
            assert!(!escaped.contains(';'), "Unquoted string contains ;: {} -> {}", attempt, escaped);
        }
    }
}

#[test]
fn every_injection_attempt_is_quoted() {
    assert_eq!(shell_escape("$(whoami)"), "'$(whoami)'");
    assert_eq!(shell_escape("; rm -rf /"), "'; rm -rf /'");
    assert_eq!(shell_escape("newline\ncommand"), "'newline\ncommand'");
    assert_eq!(shell_escape("'"), "''\\'''");
}

#[test]
fn safe_text_is_left_alone() {
    assert_eq!(shell_escape(""), "");
    assert_eq!(shell_escape("/usr/bin:x_y-1.2"), "/usr/bin:x_y-1.2");
}

#[test]
fn letters_beyond_ascii_are_safe_and_symbols_are_not() {
    assert_eq!(shell_escape("größe٣"), "größe٣");
    assert_eq!(shell_escape("a→b"), "'a→b'");
    assert!(is_safe_char('é'));
    assert!(!is_safe_char('€'));
    assert!(!is_safe_char(' '));
}

#[test]
fn different_texts_escape_differently() {
    let texts = vec!["a b", "'a b'", "a'b", "a\\'b", "a", "'a'"];
    for (i, x) in texts.iter().enumerate() {
        for (j, y) in texts.iter().enumerate() {
            assert_eq!(i == j, shell_escape(x) == shell_escape(y));
        }
    }
}
