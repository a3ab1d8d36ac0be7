use d1v_cli::text::{
    Failing, Field, Fields, Line, Raw, Render, RenderContext, RenderExt, Span, Stack, Style, Table, TableRow,
    Text,
};

#[test]
fn display_plain_text() {
    let rendered = Text::new()
        .line(Line::text("hello"))
        .line(Line::text("world"))
        .display()
        .to_string()
        .unwrap();

    assert_eq!(rendered, "hello\nworld\n");
}

#[test]
fn display_strips_ansi() {
    let ansi = Raw::new(b"\x1b[32mhello\x1b[0m");
    assert_eq!(ansi.display().to_string().unwrap(), "hello");
}

#[test]
fn display_handles_split_writes() {
    let mut split = Stack::new();
    for byte in "\x1b[32m✓\x1b[0m".as_bytes() {
        split = split.child(Raw::new(&[*byte]));
    }
    assert_eq!(split.display().to_string().unwrap(), "✓");
}

#[test]
fn styled_text_is_plain_without_color() {
    let line = Line::styled("ok".to_string(), Style::new().bold()).push_plain(" done".to_string());
    assert_eq!(line.display().to_string().unwrap(), "ok done");
    let mut ctx = RenderContext::new(true);
    Span::styled("x".to_string(), Style::new().bold()).render(&mut ctx).unwrap();
    let colored = String::from_utf8(ctx.out).unwrap();
    assert!(colored.contains('x'));
    assert!(colored.len() > 1);
}

#[test]
fn two_column_grid() {
    let table = Table::new(vec![
        TableRow::plain(&["Status", "Authenticated"]),
        TableRow::plain(&["Source", "keyring"]),
    ]);

    assert_eq!(
        table.display().to_string().unwrap(),
        "┌────────┬───────────────┐\n│ Status │ Authenticated │\n│ Source │ keyring       │\n└────────┴───────────────┘\n"
    );
}

#[test]
fn empty_table() {
    let table = Table::new(Vec::new());

    assert_eq!(table.display().to_string().unwrap(), "");
}

#[test]
fn with_header() {
    let table = Table::new(vec![
        TableRow::plain(&["1", "d1v"]),
        TableRow::plain(&["2", "mock-user"]),
    ])
    .header(TableRow::plain(&["id", "slug"]));

    assert_eq!(
        table.display().to_string().unwrap(),
        "┌────┬───────────┐\n│ id │ slug      │\n├────┼───────────┤\n│ 1  │ d1v       │\n│ 2  │ mock-user │\n└────┴───────────┘\n"
    );
}

#[test]
fn ragged_rows_are_padded() {
    let table = Table::new(vec![TableRow::plain(&["a"]), TableRow::plain(&["bb", "c"])]).indent(1);
    assert_eq!(
        table.display().to_string().unwrap(),
        " ┌────┬───┐\n │ a  │   │\n │ bb │ c │\n └────┴───┘\n"
    );
}

#[test]
fn fields_align_values() {
    let fields = Fields::new(vec![
        Field::new(Span::text("a"), Span::text("1")),
        Field::new(Span::text("long"), Span::text("2")),
    ])
    .indent(2);
    assert_eq!(fields.display().to_string().unwrap(), "  a     1\n  long  2\n");
}

#[test]
fn stack_renders_children_in_order() {
    let stack = Stack::new()
        .child(Line::text("one"))
        .children(vec![Text::from_line(Line::text("two")), Text::new().line(Line::text("three"))]);
    assert_eq!(stack.children.len(), 3);
    assert_eq!(stack.display().to_string().unwrap(), "onetwo\nthree\n");
}

#[test]
fn display_error() {
    assert!(Failing::new("render failed".to_string()).display().to_string().is_err());
    let failing = || Stack::new().child(Line::text("one")).child(Failing::new("render failed".to_string()));
    assert!(failing().display().to_string().is_err());
    let stack = failing();
    let mut ctx = RenderContext::new(false);
    assert!(stack.render(&mut ctx).is_err());
    assert_eq!(ctx.out, b"one".to_vec());
}

#[test]
fn display_keeps_plain_unicode_text() {
    let text = Line::text("✓ déployé\tok").display().to_string().unwrap();
    assert_eq!(text, "✓ déployé\tok");
}

#[test]
fn failing_stack_child_reports_after_earlier_children() {
    let stack = Stack::new()
        .child(Line::text("a"))
        .child(Failing::new("broken".to_string()))
        .child(Line::text("c"));
    let mut ctx = RenderContext::new(true);
    assert!(stack.render(&mut ctx).is_err());
    assert_eq!(ctx.out, b"a".to_vec());
}
