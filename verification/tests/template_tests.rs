use chatgpt_core::template::{needs_update, read_version_info, trim_text, Template, TemplateError};

fn script_with_version(name: &str, version: &str, url: &str) -> Vec<u8> {
    format!(
        "/**\n * @name {}\n * @version {}\n * @url {}\n */\nwindow.X = 1;\n",
        name, version, url
    )
    .into_bytes()
}

#[test]
fn test_read_version_info_all_fields() {
    let data = script_with_version("ask.js", "1.2.3", "https://example.com");
    let info = read_version_info(&data).expect("should parse version info");
    assert_eq!(info.name, "ask.js");
    assert_eq!(info.version, "1.2.3");
    assert_eq!(info.url, "https://example.com");
}

#[test]
fn test_read_version_info_missing_fields_returns_empty_strings() {
    let data = b"window.X = 1;";
    let info = read_version_info(data).expect("should return empty strings for missing fields");
    assert_eq!(info.name, "");
    assert_eq!(info.version, "");
    assert_eq!(info.url, "");
}

#[test]
fn test_read_version_info_partial_fields() {
    let data = b"/**\n * @name myScript\n */\nwindow.X = 1;\n";
    let info = read_version_info(data).expect("should parse partial info");
    assert_eq!(info.name, "myScript");
    assert_eq!(info.version, "");
}

#[test]
fn test_read_version_info_whitespace_trimmed() {
    let data = b"/**\n * @name   spaced  \n * @version  2.0.0  \n */\n";
    let info = read_version_info(data).expect("should trim whitespace");
    assert_eq!(info.name, "spaced");
    assert_eq!(info.version, "2.0.0");
}

#[test]
fn test_template_default_contains_ask_script() {
    let t = Template::default();
    assert!(
        !t.ask.is_empty(),
        "default template should embed the ask.js bytes"
    );
    let content = String::from_utf8_lossy(&t.ask);
    assert!(content.contains("ChatAsk"), "should contain ChatAsk class");
}

#[test]
fn bundled_script_has_a_version() {
    let t = Template::default();
    let info = read_version_info(&t.ask).unwrap();
    assert_eq!(info.name, "ask.js");
    assert!(!info.version.is_empty());
}

#[test]
fn read_version_info_replaces_invalid_utf8() {
    let data = b"/**\n * @name bad\xffname\n */\n";
    let info = read_version_info(data).unwrap();
    assert_eq!(info.name, "bad\u{fffd}name");
}

#[test]
fn read_version_info_takes_the_first_line() {
    let data = b"@version 1.0.0\n@version 2.0.0\n";
    assert_eq!(read_version_info(data).unwrap().version, "1.0.0");
}

#[test]
fn an_empty_header_line_runs_into_the_next() {
    let data = script_with_version("s.js", "", "u");
    assert_eq!(read_version_info(&data).unwrap().version, "* @url u");
}

#[test]
fn needs_update_when_missing() {
    let data = script_with_version("new.js", "1.0.0", "https://example.com");
    assert_eq!(needs_update(&data, None), Ok(true));
}

#[test]
fn needs_update_upgrades_older_version() {
    let old = script_with_version("script.js", "0.9.0", "https://example.com");
    let new = script_with_version("script.js", "1.0.0", "https://example.com");
    assert_eq!(needs_update(&new, Some(&old)), Ok(true));
}

#[test]
fn needs_update_skips_same_version() {
    let data = script_with_version("script.js", "1.0.0", "https://example.com");
    assert_eq!(needs_update(&data, Some(&data)), Ok(false));
}

#[test]
fn needs_update_skips_older_incoming_version() {
    let current = script_with_version("script.js", "2.0.0", "https://example.com");
    let older = script_with_version("script.js", "1.0.0", "https://example.com");
    assert_eq!(needs_update(&older, Some(&current)), Ok(false));
}

#[test]
fn needs_update_overwrites_when_no_version_in_existing() {
    let new = script_with_version("script.js", "1.0.0", "https://example.com");
    assert_eq!(needs_update(&new, Some(b"window.X = 1;")), Ok(true));
}

#[test]
fn needs_update_orders_by_precedence() {
    let release = script_with_version("s.js", "1.0.0", "u");
    let pre = script_with_version("s.js", "1.0.0-beta.2", "u");
    let minor = script_with_version("s.js", "1.10.0", "u");
    let small = script_with_version("s.js", "1.9.0", "u");
    assert_eq!(needs_update(&release, Some(&pre)), Ok(true));
    assert_eq!(needs_update(&pre, Some(&release)), Ok(false));
    assert_eq!(needs_update(&minor, Some(&small)), Ok(true));
    assert_eq!(needs_update(&small, Some(&minor)), Ok(false));
}

#[test]
fn needs_update_rejects_invalid_versions() {
    let good = script_with_version("s.js", "1.0.0", "u");
    let bad = script_with_version("s.js", "one", "u");
    let empty = script_with_version("s.js", "", "u");
    assert_eq!(needs_update(&bad, Some(&good)), Err(TemplateError::InvalidVersion));
    assert_eq!(needs_update(&good, Some(&bad)), Err(TemplateError::InvalidVersion));
    assert_eq!(needs_update(&empty, Some(&good)), Err(TemplateError::InvalidVersion));
    assert_eq!(needs_update(&bad, Some(b"window.X = 1;")), Ok(true));
}

#[test]
fn trim_text_removes_unicode_white_space() {
    assert_eq!(trim_text("  a b \t\n"), "a b");
    assert_eq!(trim_text("\u{3000}\u{a0}x\u{2029}"), "x");
    assert_eq!(trim_text(" \t "), "");
    assert_eq!(trim_text("x"), "x");
    let s = "\u{85} mixed \u{200a}";
    assert_eq!(trim_text(s), s.trim());
}
