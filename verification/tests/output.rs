use d1v_cli::output::{format_duration, Format};

#[test]
fn default_format() {
    assert!(matches!(Format::default(), Format::Text));
}

#[test]
fn format_names() {
    assert_eq!(Format::Text.as_str(), "text");
    assert_eq!(Format::Json.as_str(), "json");
}

#[test]
fn format_duration_days_hours() {
    assert_eq!(format_duration(90000), "1d 1h");
}

#[test]
fn format_duration_hours_minutes() {
    assert_eq!(format_duration(9000), "2h 30m");
}

#[test]
fn format_duration_minutes_only() {
    assert_eq!(format_duration(300), "5m");
}

#[test]
fn format_duration_less_than_minute() {
    assert_eq!(format_duration(30), "1m");
}

#[test]
fn format_duration_edges() {
    assert_eq!(format_duration(0), "1m");
    assert_eq!(format_duration(-500), "1m");
    assert_eq!(format_duration(86400), "1d 0h");
    assert_eq!(format_duration(3600), "1h 0m");
    assert_eq!(format_duration(i64::MAX), "106751991167300d 15h");
}

use d1v_cli::output::{ColorChoice, Output};
use d1v_cli::text::line::Line;
use d1v_cli::text::text::Text;

fn info_view() -> Text {
    Text::new()
        .line(Line::raw(format!("name:    {}", "test")))
        .line(Line::raw(format!("version: {}", 1)))
}

fn info_json_text() -> String {
    let mut m = serde_json::Map::new();
    m.insert("name".to_string(), serde_json::Value::String("test".to_string()));
    m.insert("version".to_string(), serde_json::Value::from(1));
    serde_json::to_string_pretty(&serde_json::Value::Object(m)).unwrap()
}

#[test]
fn present_text() {
    let mut buf = Vec::new();
    Output::new(Format::Text, ColorChoice::Never)
        .present_to(&mut buf, &info_view(), &info_json_text())
        .unwrap();
    assert_eq!(String::from_utf8(buf).unwrap(), "name:    test\nversion: 1\n");
}

#[test]
fn present_json() {
    let mut buf = Vec::new();
    Output::new(Format::Json, ColorChoice::Never)
        .present_to(&mut buf, &info_view(), &info_json_text())
        .unwrap();
    assert_eq!(
        String::from_utf8(buf).unwrap(),
        "{\n  \"name\": \"test\",\n  \"version\": 1\n}\n"
    );
}

#[test]
fn error_text() {
    let mut buf = Vec::new();
    Output::new(Format::Text, ColorChoice::Never)
        .error_to(&mut buf, "api error 1: something broke")
        .unwrap();
    assert_eq!(String::from_utf8(buf).unwrap(), "✗ api error 1: something broke\n");
}

#[test]
fn error_json() {
    let mut buf = Vec::new();
    Output::new(Format::Json, ColorChoice::Never)
        .error_to(&mut buf, "api error 1: something broke")
        .unwrap();
    assert_eq!(
        String::from_utf8(buf).unwrap(),
        "{\n  \"error\": \"api error 1: something broke\"\n}\n"
    );
}

#[test]
fn output_info_text() {
    let mut buf = Vec::new();
    Output::new(Format::Text, ColorChoice::Never)
        .info_to(&mut buf, "Code sent to user@example.com")
        .unwrap();
    assert_eq!(String::from_utf8(buf).unwrap(), "→ Code sent to user@example.com\n");
}

#[test]
fn output_info_json() {
    let mut buf = Vec::new();
    Output::new(Format::Json, ColorChoice::Never)
        .info_to(&mut buf, "Code sent to user@example.com")
        .unwrap();
    assert_eq!(String::from_utf8(buf).unwrap(), "Code sent to user@example.com\n");
}

#[test]
fn hint_text() {
    let mut buf = Vec::new();
    Output::new(Format::Text, ColorChoice::Never)
        .hint_to(&mut buf, "Run `d1v auth login` to authenticate.")
        .unwrap();
    assert_eq!(String::from_utf8(buf).unwrap(), "  Run `d1v auth login` to authenticate.\n");
}

#[test]
fn hint_json_is_silent() {
    let mut buf = Vec::new();
    Output::new(Format::Json, ColorChoice::Never)
        .hint_to(&mut buf, "some hint")
        .unwrap();
    assert!(buf.is_empty());
}

#[test]
fn styled_output_keeps_ansi_when_always() {
    let mut buf = Vec::new();
    Output::new(Format::Text, ColorChoice::Always).success_to(&mut buf, "done").unwrap();
    let s = String::from_utf8(buf).unwrap();
    assert!(s.contains("\u{1b}["));
    assert!(s.contains("done"));
    let mut plain = Vec::new();
    Output::new(Format::Text, ColorChoice::Auto).success_to(&mut plain, "done").unwrap();
    assert_eq!(String::from_utf8(plain).unwrap(), "✓ done\n");
}
