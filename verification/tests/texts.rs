use beer_mcp::text::{
    blank, decimal_text, parse_u16, replace_all, same_text, trim_trailing, white_space,
};

#[test]
fn white_space_is_that_of_char() {
    for c in '\0'..=char::MAX {
        assert_eq!(white_space(c), c.is_whitespace(), "{c:?}");
    }
}

#[test]
fn blank_is_what_trims_to_nothing() {
    for s in ["", " ", "\t\r\n", "\u{a0}\u{2003}", "a", " a ", "\u{200b}", "  🍺"] {
        assert_eq!(blank(s), s.trim().is_empty(), "{s:?}");
    }
}

#[test]
fn replacement_is_that_of_str() {
    for s in ["", "a", "aa", "aaa", "aaaa", "abab", "xaay", "🍺aa—", "baab"] {
        for pat in ["a", "aa", "ab", "aba", "—", "🍺a"] {
            for by in ["", "a", "aa", "longer", "ß"] {
                assert_eq!(replace_all(s, pat, by), s.replace(pat, by), "{s} {pat} {by}");
            }
        }
    }
}

#[test]
fn trailing_run_is_cut_off() {
    for s in ["", "/", "///", "a", "a/", "a//", "/a/b/", "https://x", "é/"] {
        assert_eq!(trim_trailing(s, '/'), s.trim_end_matches('/'), "{s}");
    }
}

#[test]
fn numbers_are_read_as_std_reads_them() {
    for s in ["", "+", "-", "+-1", "-0", "+0", "00012", "65535", "65536", "655350", "1a", "a1", "١", " 1", "1 ", "1+"] {
        assert_eq!(parse_u16(s), s.parse::<u16>().ok(), "{s}");
    }
    assert_eq!(parse_u16("+00443"), Some(443));
}

#[test]
fn numbers_are_written_as_std_writes_them() {
    for n in [0u16, 7, 10, 99, 100, 3000, 65535] {
        assert_eq!(decimal_text(n), n.to_string());
        assert_eq!(parse_u16(&decimal_text(n)), Some(n));
    }
}

#[test]
fn texts_are_compared_by_their_characters() {
    assert!(same_text("", ""));
    assert!(same_text("false", "false"));
    assert!(!same_text("false", "False"));
    assert!(!same_text("0", "00"));
}

#[test]
fn long_texts_are_scanned_in_one_pass() {
    let spaces = " ".repeat(1_000_000);
    assert!(blank(&spaces));
    let slashes = "/".repeat(1_000_000);
    assert_eq!(trim_trailing(&slashes, '/'), "");
    let zeros = "0".repeat(1_000_000);
    assert_eq!(parse_u16(&zeros), Some(0));
    let beers = "{beer}é".repeat(200_000);
    assert_eq!(replace_all(&beers, "{beer}", "ale"), beers.replace("{beer}", "ale"));
}
