use gremlin::json::{parse, parse_bytes, to_pretty_text, to_text, Json, JsonNumber};
use gremlin::text::{
    byte_len, chars_of, clip, debug_strings, decimal_text, find_from, hexadecimal_text, join,
    kilobytes_text, lines, pad_with_zeros, replace, signed_decimal_text, starts_with, take_chars,
    trim,
};

#[test]
fn white_space_is_trimmed() {
    for s in ["", " ", "a", " a b ", "\u{3000}x\u{85}\n", "\u{a0}\u{2028}y\t", "\u{200b}z\u{feff}"] {
        assert_eq!(trim(s), s.trim());
        assert_eq!(trim(&trim(s)), trim(s));
    }
    for u in 0..0x3100u32 {
        if let Some(c) = char::from_u32(u) {
            assert_eq!(gremlin::text::is_white_space(c), c.is_whitespace());
        }
    }
}

#[test]
fn lines_are_split() {
    for s in ["", "\n", "a", "a\n", "a\r\nb\n\nc", "a\rb\r", "\r\n", "x\n\r"] {
        let expected: Vec<String> = s.lines().map(|l| l.to_string()).collect();
        assert_eq!(lines(s), expected);
    }
}

#[test]
fn numbers_are_written() {
    for n in [0u64, 7, 10, 1234567890, u64::MAX] {
        assert_eq!(decimal_text(n), n.to_string());
    }
    for n in [0i64, -1, 42, i64::MIN, i64::MAX] {
        assert_eq!(signed_decimal_text(n), n.to_string());
    }
    for n in [0u128, 10, 255, u128::MAX] {
        assert_eq!(hexadecimal_text(n), format!("{:x}", n));
    }
    assert_eq!(pad_with_zeros("ff", 4), "00ff");
    assert_eq!(pad_with_zeros("12345", 4), "12345");
}

#[test]
fn sizes_are_written() {
    let mut n: u64 = 0;
    while n < 200_000 {
        assert_eq!(kilobytes_text(n), format!("{:.1}", n as f64 / 1024.0), "{}", n);
        n += 1;
    }
    for n in [1u64 << 30, 5_000_000_001, 256, 768, 1_280] {
        assert_eq!(kilobytes_text(n), format!("{:.1}", n as f64 / 1024.0));
    }
}

#[test]
fn text_is_cut_and_joined() {
    assert_eq!(clip("äöü", 6, "!"), "äöü");
    assert_eq!(clip("äöü", 5, "!"), "äöü!");
    assert_eq!(clip("abcdef", 3, "..."), "abc...");
    assert_eq!(take_chars("äöü", 2), "äö");
    let parts = vec!["a".to_string(), String::new(), "c".to_string()];
    assert_eq!(join(&parts, ", "), "a, , c");
    assert_eq!(join(&Vec::new(), ", "), "");
    assert_eq!(replace("aaa", "aa", "b"), "ba");
    assert_eq!(replace("x%hy%h", "%h", "/h"), "x/hy/h");
    assert_eq!(byte_len("ä"), 2);
    assert!(starts_with("llama:3b", "llama:"));
    assert!(!starts_with("lla", "llama"));
    assert_eq!(find_from(&chars_of("xabab"), &chars_of("ab"), 2), Some(3));
    assert_eq!(find_from(&chars_of("xabab"), &chars_of("ab"), 4), None);
}

#[test]
fn lists_for_developers() {
    let all = vec!["a\"b".to_string(), "c\n".to_string(), "ä".to_string()];
    assert_eq!(debug_strings(&all), format!("{:?}", all));
    assert_eq!(debug_strings(&Vec::new()), "[]");
}

#[test]
fn documents_are_read() {
    let j = parse("{\"a\": [1, -2, 0.5, 18446744073709551615], \"b\": null, \"a2\": {\"t\": true}, \"s\": \"x\"}")
        .expect("reads");
    match j.get("a") {
        Some(Json::Array(v)) => {
            let n = |i: usize| match &v[i] {
                Json::Number(n) => n,
                other => panic!("{:?}", other),
            };
            assert_eq!((n(0).unsigned, n(0).signed, n(0).text.as_str()), (Some(1), Some(1), "1"));
            assert_eq!((n(1).unsigned, n(1).signed, n(1).text.as_str()), (None, Some(-2), "-2"));
            assert_eq!((n(2).unsigned, n(2).signed, n(2).text.as_str()), (None, None, "0.5"));
            assert_eq!((n(3).unsigned, n(3).signed), (Some(u64::MAX), None));
        }
        other => panic!("{:?}", other),
    }
    assert!(matches!(j.get("b"), Some(Json::Null)));
    assert_eq!(j.get("a2").unwrap().get_bool("t"), Some(true));
    assert_eq!(j.get_text("s").as_deref(), Some("x"));
    assert!(j.get("none").is_none());
    assert!(Json::Null.get("a").is_none());
    assert!(parse("{").is_err());
    assert_eq!(parse("").unwrap_err(), "EOF while parsing a value at line 1 column 0");
    assert!(parse_bytes(&[0xff]).is_err());
    assert_eq!(parse_bytes(b"{\"k\":\"v\"}").unwrap().get_text("k").as_deref(), Some("v"));
    let twice = Json::empty().with("k", Json::text("old")).with("k", Json::text("new"));
    assert_eq!(twice.get_text("k").as_deref(), Some("new"));
}

#[test]
fn documents_are_written() {
    let minus = JsonNumber { unsigned: None, signed: Some(-3), text: "-3".to_string() };
    let j = Json::empty()
        .with("z", Json::array(vec![Json::Null, Json::Bool(false), Json::unsigned(8)]))
        .with("a", Json::text("q\"\n"))
        .with("m", Json::Number(minus))
        .with("a", Json::text("last"));
    assert_eq!(to_text(&j), "{\"a\":\"last\",\"m\":-3,\"z\":[null,false,8]}");
    assert_eq!(to_text(&j.copy()), to_text(&j));
    assert_eq!(to_pretty_text(&Json::object1("k", Json::text("v"))), "{\n  \"k\": \"v\"\n}");
}
