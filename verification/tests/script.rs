use rusty_web_core::navigation::{Location, Page};
use rusty_web_core::script::{escape_literal, location_text, reflect_script};

// Reads a single-quoted literal whose opening quote is already consumed:
// the value, and what follows the closing quote.
fn read_single_quoted(text: &str) -> Option<(String, String)> {
    let mut value = String::new();
    let mut chars = text.chars();
    loop {
        match chars.next()? {
            '\'' => return Some((value, chars.collect())),
            '\\' => match chars.next()? {
                c @ ('\\' | '\'') => value.push(c),
                _ => return None,
            },
            c => value.push(c),
        }
    }
}

#[test]
fn escape_quote_and_backslash() {
    assert_eq!(escape_literal("O'Brien\\path"), "O\\'Brien\\\\path");
}

#[test]
fn escape_keeps_everything_else() {
    assert_eq!(escape_literal(""), "");
    assert_eq!(escape_literal("https://example.com/?q=\"a b\"&r=1"), "https://example.com/?q=\"a b\"&r=1");
    assert_eq!(escape_literal("caf\u{e9}\n\t"), "caf\u{e9}\n\t");
}

#[test]
fn escape_runs_of_special_characters() {
    assert_eq!(escape_literal("'"), "\\'");
    assert_eq!(escape_literal("\\"), "\\\\");
    assert_eq!(escape_literal("\\'"), "\\\\\\'");
    assert_eq!(escape_literal("''\\\\"), "\\'\\'\\\\\\\\");
}

#[test]
fn escaped_literal_reads_back() {
    for value in ["O'Brien\\path", "", "'", "\\", "\\'", "a\\\\'b''", "plain", "trailing\\"] {
        let literal = format!("{}'); rest('x')", escape_literal(value));
        let (read, rest) = read_single_quoted(&literal).unwrap();
        assert_eq!(read, value);
        assert_eq!(rest, "); rest('x')");
    }
}

#[test]
fn location_text_of_each_kind() {
    assert_eq!(
        location_text(&Location::External(String::from("https://example.com"))),
        "https://example.com"
    );
    assert_eq!(location_text(&Location::Internal(Page::Settings)), "about:settings");
}

#[test]
fn reflect_script_for_settings() {
    let script = reflect_script(&Location::Internal(Page::Settings));
    assert_eq!(
        script,
        "if (typeof updateUrlFromBrowser === 'function') { updateUrlFromBrowser('about:settings'); }"
    );
    assert!(script.contains("updateUrlFromBrowser('about:settings')"));
    assert!(!script.contains('\n'));
}

#[test]
fn reflect_script_escapes_the_address() {
    let script = reflect_script(&Location::External(String::from("https://x/'); alert('\\")));
    assert_eq!(
        script,
        "if (typeof updateUrlFromBrowser === 'function') { updateUrlFromBrowser('https://x/\\'); alert(\\'\\\\'); }"
    );
    let start = "if (typeof updateUrlFromBrowser === 'function') { updateUrlFromBrowser('";
    let (read, rest) = read_single_quoted(&script[start.len()..]).unwrap();
    assert_eq!(read, "https://x/'); alert('\\");
    assert_eq!(rest, "); }");
}
