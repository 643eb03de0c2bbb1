use tracing_tree::fields::{append_kvs, event_fields};
use tracing_tree::indent::{branch_marker, connector_prefix};
use tracing_tree::level::level_label;
use tracing_tree::style::{styled, Tint};
use tracing_tree::timing::{decimal, elapsed_millis};
use tracing_tree::wrap::join_lines;
use tracing_tree::{Field, HierarchicalLayer, Severity, SpanRecord};

fn field(name: &str, value: &str) -> Field {
    (name.to_string(), value.to_string())
}

fn plain_layer(unit: usize) -> HierarchicalLayer {
    HierarchicalLayer::new(unit).with_ansi(false)
}

#[test]
fn header_keeps_field_order_under_prefix() {
    let layer = plain_layer(2);
    let fields = vec![field("b", "2"), field("a", "1")];
    assert_eq!(layer.render_header("name", &fields, 1), "┃ name{b=2, a=1}\n");
    let fields = vec![field("a", "1"), field("b", "2")];
    assert_eq!(layer.render_header("name", &fields, 1), "┃ name{a=1, b=2}\n");
}

#[test]
fn nested_headers_grow_by_one_unit() {
    let layer = plain_layer(2);
    let none: Vec<Field> = Vec::new();
    assert_eq!(layer.render_header("outer", &none, 0), "outer{}\n");
    assert_eq!(layer.render_header("middle", &none, 1), "┃ middle{}\n");
    assert_eq!(layer.render_header("inner", &none, 2), "┃ ┃ inner{}\n");
}

#[test]
fn event_shows_elapsed_before_level() {
    let layer = plain_layer(2);
    let fields = vec![field("message", "\"hello\"")];
    let out = layer.render_event(1, Some(37), Severity::Info, &fields);
    assert_eq!(out, "┣37ms  INFO \"hello\"\n");
}

#[test]
fn elapsed_is_whole_milliseconds() {
    assert_eq!(elapsed_millis(0, 37_000), 37);
    assert_eq!(elapsed_millis(1_000_500, 1_038_499), 37);
    assert_eq!(elapsed_millis(2_000, 0), -2);
    assert_eq!(elapsed_millis(i64::MIN, i64::MAX), 18_446_744_073_709_551);
}

#[test]
fn message_field_has_no_name() {
    let fields = vec![field("message", "\"hello\""), field("count", "3")];
    assert_eq!(event_fields(&fields), " \"hello\", count=3");
    let fields = vec![field("count", "3"), field("message", "\"hello\"")];
    assert_eq!(event_fields(&fields), " count=3, \"hello\"");
    assert_eq!(event_fields(&Vec::new()), "");
}

#[test]
fn no_escapes_without_color() {
    let layer = plain_layer(4);
    let fields = vec![field("k", "v")];
    let header = layer.render_header("span", &fields, 2);
    let event = layer.render_event(3, Some(5), Severity::Error, &fields);
    assert!(!header.contains('\x1b'));
    assert!(!event.contains('\x1b'));
    assert!(event.contains("ERROR"));
}

#[test]
fn error_label_is_red_when_colored() {
    assert_eq!(level_label(true, Severity::Error), "\x1b[1;31mERROR\x1b[0m");
    assert_eq!(level_label(false, Severity::Error), "ERROR");
    assert_eq!(level_label(false, Severity::Info), " INFO");
    assert_eq!(level_label(false, Severity::Warn), " WARN");
    assert_eq!(level_label(true, Severity::Trace), "\x1b[1;35mTRACE\x1b[0m");
    assert_eq!(level_label(true, Severity::Debug), "\x1b[1;34mDEBUG\x1b[0m");
    assert_eq!(level_label(true, Severity::Warn), "\x1b[1;38;2;252;234;160m WARN\x1b[0m");
    for l in [Severity::Trace, Severity::Debug, Severity::Info, Severity::Warn, Severity::Error] {
        assert_eq!(level_label(false, l).chars().count(), 5);
    }
}

#[test]
fn colored_header_and_event() {
    let layer = HierarchicalLayer::new(2).with_ansi(true);
    let fields = vec![field("a", "1")];
    assert_eq!(
        layer.render_header("s", &fields, 0),
        "\x1b[1;32ms\x1b[0m\x1b[1;32m{\x1b[0ma=1\x1b[1;32m}\x1b[0m\n"
    );
    let out = layer.render_event(1, Some(7), Severity::Info, &fields);
    assert_eq!(out, "┣\x1b[2m7\x1b[0m\x1b[2mms\x1b[0m \x1b[1;32m INFO\x1b[0m a=1\n");
}

#[test]
fn long_event_wraps_under_prefix() {
    let layer = plain_layer(2);
    let words: Vec<String> = (0..80).map(|i| format!("word{:03}", i)).collect();
    let fields = vec![field("message", &words.join(" "))];
    let out = layer.render_event(2, None, Severity::Info, &fields);
    let lines: Vec<&str> = out.trim_end_matches('\n').split('\n').collect();
    assert!(lines.len() > 1);
    assert!(lines[0].starts_with("┃ ┣"));
    for line in &lines[1..] {
        assert!(line.starts_with("┃ ┃ "));
        assert!(!line[("┃ ┃ ".len())..].starts_with('┃'));
    }
    for line in &lines {
        assert!(line.chars().count() <= 200);
    }
    let rejoined: Vec<&str> = lines.iter().flat_map(|l| l.split(' ')).filter(|w| w.starts_with("word")).collect();
    assert_eq!(rejoined.len(), 80);
}

#[test]
fn long_header_wraps_under_prefix() {
    let layer = plain_layer(3);
    let fields: Vec<Field> = (0..40).map(|i| field(&format!("key{}", i), "value")).collect();
    let out = layer.render_header("sp", &fields, 2);
    let lines: Vec<&str> = out.trim_end_matches('\n').split('\n').collect();
    assert!(lines.len() > 1);
    for line in &lines {
        assert!(line.starts_with("┃  ┃  "));
    }
}

#[test]
fn very_long_word_is_broken() {
    let layer = plain_layer(2);
    let word = "x".repeat(450);
    let fields = vec![field("message", &word)];
    let out = layer.render_event(0, None, Severity::Debug, &fields);
    let lines: Vec<&str> = out.trim_end_matches('\n').split('\n').collect();
    assert_eq!(lines.len(), 3);
    assert_eq!(lines.iter().map(|l| l.matches('x').count()).sum::<usize>(), 450);
}

#[test]
fn event_outside_spans_and_without_fields() {
    let layer = plain_layer(2);
    let fields = vec![field("message", "\"hi\"")];
    assert_eq!(layer.render_event(0, None, Severity::Warn, &fields), " \"hi\"\n");
    assert_eq!(layer.render_event(0, None, Severity::Warn, &Vec::new()), "\n");
    assert_eq!(layer.render_event(1, None, Severity::Warn, &Vec::new()), "┣\n");
}

#[test]
fn connector_and_branch_shapes() {
    assert_eq!(connector_prefix(3, 4), "┃   ┃   ┃   ");
    assert_eq!(connector_prefix(0, 4), "");
    assert_eq!(connector_prefix(5, 0), "");
    assert_eq!(branch_marker(2, 6), "┃     ┣━━");
    assert_eq!(branch_marker(1, 2), "┣");
    assert_eq!(branch_marker(1, 1), "┣");
    assert_eq!(branch_marker(3, 5), "┃    ┃    ┣━");
    assert_eq!(branch_marker(2, 4), "┃   ┣━");
}

#[test]
fn styles_wrap_text_in_escapes() {
    assert_eq!(styled(true, Tint::Dimmed, "x"), "\x1b[2mx\x1b[0m");
    assert_eq!(styled(true, Tint::GreenBold, ""), "\x1b[1;32m\x1b[0m");
    assert_eq!(styled(false, Tint::RedBold, "x"), "x");
}

#[test]
fn decimal_forms() {
    assert_eq!(decimal(0), "0");
    assert_eq!(decimal(37), "37");
    assert_eq!(decimal(-42), "-42");
    assert_eq!(decimal(i64::MAX), i64::MAX.to_string());
    assert_eq!(decimal(i64::MIN), i64::MIN.to_string());
}

#[test]
fn kvs_append_in_order() {
    let mut buf = String::from("x{");
    append_kvs(&mut buf, &vec![field("z", "1"), field("message", "m"), field("a", "2")]);
    assert_eq!(buf, "x{z=1, message=m, a=2");
    let mut empty = String::new();
    append_kvs(&mut empty, &Vec::new());
    assert_eq!(empty, "");
}

#[test]
fn lines_end_with_newlines() {
    assert_eq!(join_lines(&vec!["a".to_string(), "b".to_string()]), "a\nb\n");
    assert_eq!(join_lines(&Vec::new()), "");
}

#[test]
fn layer_configuration() {
    let layer = HierarchicalLayer::new(4);
    assert_eq!(layer.indent_amount, 4);
    let layer = layer.with_ansi(true);
    assert!(layer.ansi);
    assert_eq!(layer.indent_amount, 4);
    assert!(!layer.with_ansi(false).ansi);
}

#[test]
fn captured_span_times_its_events() {
    let record = SpanRecord::capture(vec![field("a", "1"), field("b", "2")]);
    assert_eq!(record.fields, vec![field("a", "1"), field("b", "2")]);
    assert!(record.start_micros > 0);
    let layer = plain_layer(2);
    let out = layer.render_event_now(1, Some(&record), Severity::Info, &vec![field("n", "1")]);
    assert!(out.starts_with("┣"));
    assert!(out.contains("ms  INFO n=1"));
    let out = layer.render_event_now(0, None, Severity::Info, &vec![field("n", "1")]);
    assert_eq!(out, " n=1\n");
}
