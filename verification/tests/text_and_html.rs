use visuara::html::{cookie_value, html_escape, page};
use visuara::text::{decimal_string, parse_i64, str_contains, trim_str};

#[test]
fn html_escape_replaces_markup_characters() {
    assert_eq!(html_escape("<a href=\"x\">Tom & Jerry</a>"), "&lt;a href=&quot;x&quot;&gt;Tom &amp; Jerry&lt;/a&gt;");
    assert_eq!(html_escape("plain"), "plain");
    assert_eq!(html_escape("it's"), "it's");
}

#[test]
fn page_wraps_title_and_body() {
    let p = page("Visuara", "<p>hi</p>");
    assert!(p.starts_with("<!doctype html><html><head><meta charset=\"utf-8\"><title>Visuara</title><style>"));
    assert!(p.ends_with("<body><h1>Visuara</h1><p>hi</p></body></html>"));
    assert!(p.contains(".online{background:#2a2}.offline{background:#999}"));
}

#[test]
fn cookie_value_finds_named_cookie() {
    let header = "theme=dark; visuara_session=abc123; other=1";
    assert_eq!(cookie_value(header, "visuara_session"), Some("abc123".to_string()));
    assert_eq!(cookie_value(header, "theme"), Some("dark".to_string()));
    assert_eq!(cookie_value(header, "missing"), None);
    assert_eq!(cookie_value("a=1=2", "a"), Some("1=2".to_string()));
    assert_eq!(cookie_value("novalue; a=", "a"), Some(String::new()));
    assert_eq!(cookie_value("", "a"), None);
}

#[test]
fn parse_i64_follows_std() {
    assert_eq!(parse_i64("1700000000"), Some(1700000000));
    assert_eq!(parse_i64("-42"), Some(-42));
    assert_eq!(parse_i64("+7"), Some(7));
    assert_eq!(parse_i64("9223372036854775807"), Some(i64::MAX));
    assert_eq!(parse_i64("-9223372036854775808"), Some(i64::MIN));
    assert_eq!(parse_i64("9223372036854775808"), None);
    assert_eq!(parse_i64(""), None);
    assert_eq!(parse_i64("-"), None);
    assert_eq!(parse_i64("12a"), None);
    assert_eq!(parse_i64(" 1"), None);
    for s in ["0", "123", "-5", "+0", "x", "1 ", "--1"] {
        assert_eq!(parse_i64(s), s.parse::<i64>().ok(), "input {s:?}");
    }
}

#[test]
fn trim_and_contains_follow_std() {
    for s in ["  a b  ", "\t\nx\r ", "", "   ", "x"] {
        assert_eq!(trim_str(s), s.trim());
    }
    assert!(str_contains("Mozilla/5.0 (Windows NT 10.0)", "Windows"));
    assert!(!str_contains("abc", "abcd"));
    assert!(str_contains("abc", ""));
    assert_eq!(decimal_string(0), "0");
    assert_eq!(decimal_string(1234567890), "1234567890");
}

#[test]
fn escaped_text_reads_back_unchanged() {
    for s in ["<a href=\"x\">Tom & Jerry</a>", "&amp; is already an entity", "&lt;&gt;&quot;", "", "plain"] {
        let back = html_escape(s).replace("&lt;", "<").replace("&gt;", ">").replace("&quot;", "\"").replace("&amp;", "&");
        assert_eq!(back, s);
    }
}
