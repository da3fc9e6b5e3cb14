use uplog::text::{decimal, is_blank, is_white_space_char, starts_with};

#[test]
fn white_space_matches_std() {
    for n in 0u32..0x11000 {
        if let Some(c) = char::from_u32(n) {
            assert_eq!(is_white_space_char(c), c.is_whitespace(), "code point {:#x}", n);
        }
    }
}

#[test]
fn blank_matches_trim() {
    for s in ["", " ", "\t\r\n", "a", " a ", "\u{2028}", "\u{200B}", "\u{85}x"] {
        assert_eq!(is_blank(s), s.trim().is_empty(), "{:?}", s);
    }
}

#[test]
fn starts_with_matches_std() {
    for (s, p) in [
        ("https://x", "https://"),
        ("http://x", "https://"),
        ("", ""),
        ("abc", ""),
        ("ab", "abc"),
        ("é€x", "é€"),
        ("/System/Volumes/Data", "/System/Volumes/"),
    ] {
        assert_eq!(starts_with(s, p), s.starts_with(p), "{:?} {:?}", s, p);
    }
}

#[test]
fn decimal_matches_format() {
    for n in [0u64, 1, 9, 10, 42, 404, 1000, 65535, u64::MAX] {
        assert_eq!(decimal(n), format!("{}", n));
    }
}
