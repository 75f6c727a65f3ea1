use surn::report::{Charset, Report, ReportKind, SizedPadding, Snippet};
use surn::util::source::{SourceBuffer, SourceLine};

#[test]
pub fn test_snippet_print() {
    let code = "
    fn main() {
        println!(\"Hello, world!\");
    }
    ";
    let report = Report::new()
        .set_source(SourceBuffer::new(code.to_string()))
        .make_snippet(5..7, "This keyword must be spelled out.".to_string(), None)
        .make_snippet(
            34..49,
            "String contents can not contain this message.".to_string(),
            Some("Illegal message".into()),
        )
        .set_message("This is a test.".to_string());
    assert!(report.can_print());
    let text = report.render();
    let expected = "Error! This is a test.\n\
----- [unknown-name.surn]\n    |\n\
2   | fn main() {\n    | ~~ \n\
Err | ---> This keyword must be spelled out.\n    |\n\
3   | println!(\"Hello, world!\");\n    |          ~~~~~~~~~~~~~~~ Illegal message\n\
Err | ---> String contents can not contain this message.\n";
    assert_eq!(text, expected);
}

#[test]
fn snippet_underline_and_line_number() {
    let source = "var a = 1;\n  var b = [1, 2;\nvar c;";
    let snippet = Snippet::new(SourceBuffer::new(source.to_string()), "m".to_string(), 21..27)
        .set_inline("here".to_string());
    assert!(snippet.can_print());
    assert_eq!(snippet.get_line(), 2);
    let text = snippet.get_print();
    let rows: Vec<&str> = text.split('\n').collect();
    assert_eq!(rows.len(), 3);
    assert_eq!(rows[0], "2   | var b = [1, 2;");
    assert_eq!(rows[1], "    |         ~~~~~~ here");
    assert_eq!(rows[1].matches('~').count(), 27 - 21);
    assert_eq!(rows[2], "Err | ---> m");
}

#[test]
fn snippet_at_the_end_of_the_source() {
    let snippet = Snippet::new(SourceBuffer::new("ab\ncd".to_string()), "m".to_string(), 5..5);
    assert!(snippet.can_print());
    assert_eq!(snippet.get_line(), 2);
    assert_eq!(snippet.get_print(), "2   | cd\n    |    \nErr | ---> m");
    let outside = Snippet::new(SourceBuffer::new("ab".to_string()), "m".to_string(), 3..4);
    assert!(!outside.can_print());
}

#[test]
fn source_lines() {
    let buffer = SourceBuffer::new("ab\n\n  cé d\n".to_string());
    let lines = buffer.get_lines();
    let seen: Vec<(usize, usize, usize, String)> = lines
        .iter()
        .map(|l| (l.offset(), l.len(), l.line(), l.source().to_string()))
        .collect();
    assert_eq!(
        seen,
        vec![
            (0, 2, 1, "ab".to_string()),
            (3, 0, 2, "".to_string()),
            (4, 7, 3, "  cé d".to_string()),
            (12, 0, 4, "".to_string()),
        ]
    );
    assert_eq!(buffer.get_line_at(1).unwrap().line(), 1);
    assert_eq!(buffer.get_line_at(2).unwrap().line(), 1);
    assert_eq!(buffer.get_line_at(3).unwrap().line(), 2);
    assert_eq!(buffer.get_line_at(9).unwrap().line(), 3);
    assert_eq!(buffer.get_line_at(12).unwrap().line(), 4);
    assert!(buffer.get_line_at(13).is_none());
    assert_eq!(SourceBuffer::empty().get_lines().len(), 1);
    assert_eq!(buffer.get(0..2), "ab");
    assert_eq!(buffer.get(10..14), "\n   ");
    assert_eq!(buffer.chars().len(), 11);
}

#[test]
fn source_line_padding() {
    let line = SourceLine::new(10, 3, "   abc".to_string());
    assert_eq!(line.offset_max(), 16);
    assert_eq!(line.offset_relative(12..15), 2..5);
    assert_eq!(line.spaces_until(14..15), 2);
    assert_eq!(line.spaces_until(13..15), 1);
    assert_eq!(line.spaces_until(11..15), 1);
    let trimmed = line.trim();
    assert_eq!(trimmed.source(), "abc");
    assert_eq!(trimmed.len(), 6);
    assert_eq!(trimmed.spaces_until(14..15), 2);
}

#[test]
fn padding_and_kinds() {
    assert_eq!(SizedPadding::new("7".to_string(), Charset::defaults(), 3).to_string(), "7  ");
    assert_eq!(SizedPadding::new_even("ab".to_string(), Charset::defaults(), 3).to_string(), "   ab ");
    assert_eq!(SizedPadding::new("abcd".to_string(), Charset::defaults(), 3).to_string(), "abcd");
    assert_eq!(ReportKind::Warning.to_string(), "Warning");
    assert_eq!(surn::report::repeat_char('~', 3), "~~~");
    assert_eq!(Charset::defaults().underline, '~');
}

#[test]
fn report_builders() {
    let report = Report::new().set_code(7).set_name("a.surn".to_string());
    assert_eq!(report.code, 7);
    assert_eq!(report.get_width(), 3);
    let report = report.add_snippet(Snippet::empty().set_range(0..0).set_message("m".to_string()));
    assert_eq!(report.snippets.len(), 1);
    assert_eq!(report.render(), "Error! \n----- [a.surn]\n    |\n1   | \n    |  \nErr | ---> m\n");
    assert_eq!(report.empty_snippet().get_line(), 1);
}
