use riot_autoaccept::text::{
    eq_ignore_ascii_case, parse_u16, push_decimal, split_char, str_eq, strip_prefix, trim,
    trim_in, TrimSet,
};

#[test]
fn parse_u16_accepts_plain_digits() {
    assert_eq!(parse_u16("8080"), Some(8080));
    assert_eq!(parse_u16("0"), Some(0));
    assert_eq!(parse_u16("65535"), Some(65535));
    assert_eq!(parse_u16("00012"), Some(12));
}

#[test]
fn parse_u16_accepts_a_leading_plus() {
    assert_eq!(parse_u16("+443"), Some(443));
}

#[test]
fn parse_u16_refuses_what_std_refuses() {
    for s in ["", "+", "-1", "-0", " 1", "1 ", "65536", "99999999999", "12a", "++1", "0x10"] {
        assert_eq!(parse_u16(s), None, "{s:?}");
        assert_eq!(parse_u16(s), s.parse::<u16>().ok(), "{s:?}");
    }
}

#[test]
fn parse_u16_agrees_with_std_on_numbers() {
    for n in [0u32, 1, 9, 10, 99, 100, 4242, 65535, 65536, 70000] {
        let s = n.to_string();
        assert_eq!(parse_u16(&s), s.parse::<u16>().ok());
    }
}

#[test]
fn decimal_text_reads_back() {
    for n in [0u16, 7, 10, 255, 2999, 50000, 65535] {
        let mut out = String::from("port=");
        push_decimal(&mut out, n);
        assert_eq!(out, format!("port={n}"));
        assert_eq!(parse_u16(&out["port=".len()..]), Some(n));
    }
}

#[test]
fn trim_removes_unicode_white_space() {
    assert_eq!(trim("  \t abc \r\n"), "abc");
    assert_eq!(trim("\u{3000}x y\u{a0}"), "x y");
    assert_eq!(trim("   "), "");
    assert_eq!(trim(""), "");
    assert_eq!(trim("a"), "a");
}

#[test]
fn trim_in_quotes() {
    assert_eq!(trim_in("\"\"Matchmaking\"", TrimSet::Char('"')), "Matchmaking");
    assert_eq!(trim_in("\"\"\"", TrimSet::Char('"')), "");
    assert_eq!(trim_in("a\"b", TrimSet::Char('"')), "a\"b");
}

#[test]
fn split_char_keeps_empty_pieces() {
    assert_eq!(split_char("a:b:c", ':'), vec!["a", "b", "c"]);
    assert_eq!(split_char("::", ':'), vec!["", "", ""]);
    assert_eq!(split_char("", ':'), vec![""]);
    assert_eq!(split_char("LeagueClient:1234:50000:tok:https", ':').len(), 5);
}

#[test]
fn strip_prefix_matches_std() {
    assert_eq!(strip_prefix("--app-port=50123", "--app-port="), Some("50123"));
    assert_eq!(strip_prefix("--app-port=", "--app-port="), Some(""));
    assert_eq!(strip_prefix("--app", "--app-port="), None);
    assert_eq!(strip_prefix("x--app-port=1", "--app-port="), None);
}

#[test]
fn eq_ignore_ascii_case_folds_ascii_only() {
    assert!(eq_ignore_ascii_case("LEAGUECLIENTUX.EXE", "LeagueClientUx.exe"));
    assert!(!eq_ignore_ascii_case("LeagueClientUx", "LeagueClientUx.exe"));
    assert!(eq_ignore_ascii_case("ÄbC", "Äbc"));
    assert!(!eq_ignore_ascii_case("ä", "Ä"));
}

#[test]
fn str_eq_compares_characters() {
    assert!(str_eq("InProgress", "InProgress"));
    assert!(!str_eq("InProgress", "inprogress"));
    assert!(str_eq("", ""));
}

#[test]
fn trim_agrees_with_std_on_every_char() {
    for u in 0u32..=0x10FFFF {
        if let Some(c) = char::from_u32(u) {
            let s = format!("{c}a{c}");
            assert_eq!(trim(&s), s.trim(), "U+{u:04X}");
        }
    }
}

#[test]
fn parse_u16_agrees_with_std_on_a_range() {
    for n in 0u32..=70_000 {
        let s = n.to_string();
        assert_eq!(parse_u16(&s), s.parse::<u16>().ok());
        let p = format!("+{s}");
        assert_eq!(parse_u16(&p), p.parse::<u16>().ok());
    }
}

#[test]
fn eq_ignore_ascii_case_agrees_with_std() {
    let chars: Vec<char> = (0u32..0x250).filter_map(char::from_u32).collect();
    for &a in &chars {
        for &b in &chars {
            let (x, y) = (a.to_string(), b.to_string());
            assert_eq!(eq_ignore_ascii_case(&x, &y), x.eq_ignore_ascii_case(&y));
        }
    }
}
