use repx::text::{
    char_is_whitespace, chars_of, contains, copy_text, decimal_text, join, lines_of, normalize_line_endings,
    same_text, signed_decimal_text, split_on, starts_with, text_of_all, to_ascii_lower, trim,
};

fn samples() -> Vec<&'static str> {
    vec![
        "",
        "a",
        "\n",
        "\r",
        "\r\n",
        "\n\n",
        "a\n",
        "a\nb",
        "a\r\nb\r\n",
        "a\rb",
        "a\r",
        "a\r\r\n",
        "foo\nbar\n\r\nbaz\r",
        "  padded  ",
        "\t\ttabs\n",
        "\u{a0}no-break space\u{2003}",
        "\u{3000}",
        "error: something failed\n  at line 3\n",
        "copying path '/nix/store/abc' from 'https://cache.nixos.org'...",
        "naïve café ☕ 越南",
        "a,b,,c",
        ",",
        ",a,",
        "   ",
        "x\n\n\ny\n",
    ]
}

#[test]
fn chars_round_trip() {
    for s in samples() {
        let v = chars_of(s);
        assert_eq!(v, s.chars().collect::<Vec<char>>());
        assert_eq!(text_of_all(&v), s);
        assert_eq!(copy_text(s), s);
    }
}

#[test]
fn same_text_is_equality() {
    for a in samples() {
        for b in samples() {
            assert_eq!(same_text(a, b), a == b);
        }
    }
}

#[test]
fn contains_agrees_with_std() {
    let needles = ["", "a", "error", "error:", "\n", "\r\n", "failed", "b\r", "  ", "越", ",,"];
    for s in samples() {
        for n in needles {
            assert_eq!(contains(s, n), s.contains(n), "{:?} in {:?}", n, s);
        }
    }
    assert!(contains("the build failed here", "failed"));
    assert!(!contains("fail", "failed"));
    assert!(contains("abc", "abc"));
    assert!(!contains("ab", "abc"));
}

#[test]
fn starts_with_agrees_with_std() {
    let prefixes = ["", "a", "a\n", "error", "  ", "\\\\?\\", "REPRO_"];
    for s in samples() {
        for p in prefixes {
            assert_eq!(starts_with(s, p), s.starts_with(p), "{:?} / {:?}", s, p);
        }
    }
    assert!(starts_with("REPRO_BUILD_EXTRA_PACKAGE_1", "REPRO_BUILD_EXTRA_PACKAGE_"));
    assert!(!starts_with("REPRO_BUILD_EXTRA_PACKAGES", "REPRO_BUILD_EXTRA_PACKAGE_"));
}

#[test]
fn normalize_agrees_with_two_replacements() {
    for s in samples() {
        assert_eq!(normalize_line_endings(s), s.replace("\r\n", "\n").replace('\r', "\n"));
    }
    assert_eq!(normalize_line_endings("a\r\nb\rc\nd"), "a\nb\nc\nd");
    assert_eq!(normalize_line_endings("\r\r\n\r"), "\n\n\n");
}

#[test]
fn normalize_is_idempotent_and_leaves_no_carriage_return() {
    for s in samples() {
        let once = normalize_line_endings(s);
        assert!(!once.contains('\r'));
        assert_eq!(normalize_line_endings(&once), once);
    }
}

#[test]
fn lines_agree_with_std() {
    for s in samples() {
        let expected: Vec<String> = s.lines().map(|l| l.to_string()).collect();
        assert_eq!(lines_of(s), expected, "lines of {:?}", s);
    }
    assert_eq!(lines_of("foo\nbar\n\r\nbaz\r"), vec!["foo", "bar", "", "baz\r"]);
    assert_eq!(lines_of(""), Vec::<String>::new());
    assert_eq!(lines_of("\n"), vec![""]);
    assert_eq!(lines_of("a\r\n"), vec!["a"]);
}

#[test]
fn trim_agrees_with_std() {
    for s in samples() {
        assert_eq!(trim(s), s.trim(), "trim of {:?}", s);
    }
    assert_eq!(trim("  a b \n"), "a b");
    assert_eq!(trim(" \t\r\n"), "");
    assert_eq!(trim("true\n"), "true");
}

#[test]
fn split_agrees_with_std() {
    for s in samples() {
        let expected: Vec<String> = s.split(',').map(|p| p.to_string()).collect();
        assert_eq!(split_on(s, ','), expected, "split of {:?}", s);
    }
    assert_eq!(split_on("a,b,,c", ','), vec!["a", "b", "", "c"]);
    assert_eq!(split_on("", ','), vec![""]);
    assert_eq!(split_on(",", ','), vec!["", ""]);
}

#[test]
fn join_agrees_with_std() {
    let lists: Vec<Vec<String>> = vec![
        vec![],
        vec!["a".to_string()],
        vec!["a".to_string(), "b".to_string()],
        vec!["".to_string(), "".to_string(), "x".to_string()],
    ];
    for l in lists {
        assert_eq!(join(&l, ", "), l.join(", "));
        assert_eq!(join(&l, ""), l.join(""));
    }
    let l = vec!["x86_64-linux-gnu".to_string(), "aarch64-linux-musl".to_string()];
    assert_eq!(join(&l, ", "), "x86_64-linux-gnu, aarch64-linux-musl");
}

#[test]
fn decimal_agrees_with_std() {
    let numbers: [u64; 12] =
        [0, 1, 9, 10, 11, 99, 100, 101, 3600, 1700000000, u64::MAX - 1, u64::MAX];
    for n in numbers {
        assert_eq!(decimal_text(n), n.to_string());
    }
    assert_eq!(decimal_text(0), "0");
    assert_eq!(decimal_text(1234567890), "1234567890");
    assert_eq!(decimal_text(u64::MAX), "18446744073709551615");
}

#[test]
fn signed_decimal_agrees_with_std() {
    let numbers: [i64; 11] = [0, 1, -1, 9, -9, 10, -10, 127, -128, i64::MAX, i64::MIN];
    for n in numbers {
        assert_eq!(signed_decimal_text(n), n.to_string());
    }
    assert_eq!(signed_decimal_text(-1), "-1");
    assert_eq!(signed_decimal_text(i64::MIN), "-9223372036854775808");
}

#[test]
fn ascii_lower_agrees_with_std() {
    for c in ['A', 'Z', 'C', 'a', 'z', '0', ':', '\\', 'É', 'é', '越', '@', '['] {
        assert_eq!(to_ascii_lower(c), c.to_ascii_lowercase());
    }
    assert_eq!(to_ascii_lower('C'), 'c');
}

#[test]
fn white_space_agrees_with_std_on_every_character() {
    let mut count = 0;
    for code in 0..=0x10ffffu32 {
        if let Some(c) = char::from_u32(code) {
            assert_eq!(char_is_whitespace(c), c.is_whitespace(), "U+{:04X}", code);
            if char_is_whitespace(c) {
                count += 1;
            }
        }
    }
    assert_eq!(count, 25);
}
