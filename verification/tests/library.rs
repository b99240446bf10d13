use gemcut::config::{default_max_width, Config};
use gemcut::formatter::{format_code, format_parsed, try_format_code, Formatter};
use gemcut::parser::parse;
use gemcut::syntax::{Kind, ParseResult, Span, SyntaxNode};
use gemcut::text::{comment_body_exec, count_newlines_exec, is_binary_operator_exec, latin1_encode};

fn node(start: usize, end: usize, kind: Kind) -> SyntaxNode {
    SyntaxNode { loc: Span { start, end }, kind }
}

fn result(source: &[u8], node: SyntaxNode, comments: Vec<Span>) -> ParseResult {
    ParseResult { source: source.to_vec(), node, comments }
}

#[test]
fn default_config_is_eighty_columns_and_excludes_nothing() {
    let c = Config::default();
    assert_eq!(c.max_width, 80);
    assert!(c.exclude.is_empty());
    assert_eq!(default_max_width(), 80);
    assert_eq!(c.max_width, default_max_width());
}

#[test]
fn config_falls_back_to_default_when_nothing_was_read() {
    let c = Config::or_default(None);
    assert_eq!(c.max_width, 80);
    assert!(c.exclude.is_empty());
    let read = Config { max_width: 100, exclude: vec!["vendor/**".to_string()] };
    let c = Config::or_default(Some(read));
    assert_eq!(c.max_width, 100);
    assert_eq!(c.exclude, vec!["vendor/**".to_string()]);
}

#[test]
fn binary_operators_are_recognised() {
    for op in ["+", "-", "*", "/", "==", "!=", ">", "<", ">=", "<=", "&&", "||", "="] {
        assert!(is_binary_operator_exec(op.as_bytes()), "{}", op);
    }
    for name in ["foo", "**", "<<", "===", "", "+="] {
        assert!(!is_binary_operator_exec(name.as_bytes()), "{}", name);
    }
}

#[test]
fn newlines_are_counted() {
    assert_eq!(count_newlines_exec(b""), 0);
    assert_eq!(count_newlines_exec(b"a\n\nb\n"), 3);
}

#[test]
fn identifier_bytes_are_widened_as_latin1() {
    assert_eq!(latin1_encode(b"abc"), b"abc".to_vec());
    assert_eq!(latin1_encode(&[0xE9]), "\u{e9}".as_bytes().to_vec());
}

#[test]
fn comment_text_loses_its_marks_and_surrounding_space() {
    assert_eq!(comment_body_exec(b"#   hello world  "), b"hello world".to_vec());
    assert_eq!(comment_body_exec(b"### x"), b"x".to_vec());
    assert_eq!(comment_body_exec(&[b'#', 0xff]), Vec::<u8>::new());
}

#[test]
fn parse_gives_the_tree_and_comments_of_the_source() {
    let r = parse(b"# c\nx = 1");
    assert_eq!(r.source, b"# c\nx = 1".to_vec());
    assert_eq!(r.comments, vec![Span { start: 0, end: 3 }]);
    match &r.node.kind {
        Kind::Other { children } => {
            assert_eq!(children.len(), 1);
            match &children[0].kind {
                Kind::Statements { body } => {
                    assert_eq!(body.len(), 1);
                    assert_eq!(body[0].loc, Span { start: 4, end: 9 });
                    assert!(matches!(body[0].kind, Kind::LocalVariableWrite { .. }));
                },
                _ => panic!("expected statements"),
            }
        },
        _ => panic!("expected the program node"),
    }
}

#[test]
fn blank_lines_between_statements_collapse_to_one() {
    assert_eq!(format_code("a = 1\n\n\n\nb = 2"), "a = 1\n\nb = 2");
    assert_eq!(format_code("a = 1\nb = 2"), "a = 1\nb = 2");
}

#[test]
fn every_comment_is_printed_once_in_order() {
    let out = format_code("x = 1 # one\n# two\ny = 2\n# three");
    assert_eq!(out, "x = 1\n# one\n# two\ny = 2\n# three");
}

#[test]
fn a_hash_of_more_than_two_pairs_is_broken_over_lines() {
    assert_eq!(format_code("h = {a: 1, b: 2, c: 3}"), "h = {\n  a: 1,\n  b: 2,\n  c: 3,\n}");
    assert_eq!(format_code("h = {a: 1}"), "h = { a: 1 }");
    assert_eq!(format_code("h = {}"), "h = {}");
}

#[test]
fn an_empty_array_stays_on_one_line() {
    assert_eq!(format_code("a = []"), "a = []");
}

#[test]
fn a_call_chain_breaks_only_past_the_width() {
    let src = b"User.active.limit";
    let wide = format_parsed(&parse(src), 80).unwrap();
    assert_eq!(wide, "User.active.limit");
    let narrow = format_parsed(&parse(src), 10).unwrap();
    assert_eq!(narrow, "User\n  .active\n  .limit");
}

#[test]
fn modifier_if_and_ternary_keep_their_form() {
    assert_eq!(format_code("x = 1 if y"), "x = 1 if y");
    assert_eq!(try_format_code("a ? b : c"), Some("a ? b : c".to_string()));
}

#[test]
fn a_definition_without_body_still_gets_its_end() {
    assert_eq!(format_code("def foo\nend"), "def foo\nend");
}

#[test]
fn a_hand_built_constant_is_printed_from_the_source() {
    let r = result(b"Foo", node(0, 3, Kind::ConstantRead), vec![]);
    assert_eq!(format_parsed(&r, 80), Some("Foo".to_string()));
}

#[test]
fn a_token_that_is_not_utf8_makes_printing_go_wrong() {
    let r = result(&[0xff], node(0, 1, Kind::ConstantRead), vec![]);
    assert_eq!(format_parsed(&r, 80), None);
}

#[test]
fn a_statement_outside_the_source_makes_printing_go_wrong() {
    let stmt = node(5, 9, Kind::True);
    let r = result(b"true", node(0, 4, Kind::Statements { body: vec![stmt] }), vec![]);
    assert_eq!(format_parsed(&r, 80), None);
}

#[test]
fn a_name_is_widened_byte_by_byte() {
    let r = result(b"", node(0, 0, Kind::LocalVariableRead { name: vec![0xE9] }), vec![]);
    assert_eq!(format_parsed(&r, 80), Some("\u{e9}".to_string()));
}

#[test]
fn a_comment_alone_is_printed_on_a_line_of_its_own() {
    let r = result(b"#  hi  ", node(0, 0, Kind::Statements { body: vec![] }), vec![Span { start: 0, end: 7 }]);
    assert_eq!(format_parsed(&r, 80), Some("\n# hi".to_string()));
}

#[test]
fn the_printer_only_appends_to_its_output() {
    let r = result(b"", node(0, 0, Kind::Nil), vec![]);
    let mut f = Formatter::new(&r, 80);
    f.visit(&node(0, 0, Kind::True));
    let first = f.output().to_string();
    f.visit(&node(0, 0, Kind::False));
    assert!(f.is_ok());
    assert!(f.output().starts_with(&first));
    assert_eq!(f.output(), "truefalse");
    assert_eq!(f.output_bytes(), b"truefalse");
}

#[test]
fn indentation_comes_back_after_a_class() {
    assert_eq!(
        format_code("class A\ndef b\n1\nend\nend\nc = 2"),
        "class A\n  def b\n    1\n  end\nend\nc = 2"
    );
}

#[test]
fn a_hash_whose_source_spans_lines_is_broken_over_lines() {
    assert_eq!(format_code("h = {\n  a: 1,\n  b: 2\n}"), "h = {\n  a: 1,\n  b: 2,\n}");
    assert_eq!(format_code("h = {a: 1, b: 2}"), "h = { a: 1, b: 2 }");
}

#[test]
fn an_index_call_keeps_its_brackets() {
    assert_eq!(format_code("y = x[1]"), "y = x[1]");
    assert_eq!(format_code("a.b[1, 2]"), "a.b[1, 2]");
    assert_eq!(format_code("x[1] + 1"), "x[1] + 1");
}

#[test]
fn the_column_counts_characters_not_bytes() {
    let src = "puts \"\u{e9}\u{e9}\u{e9}\u{e9}\u{e9}\", User.active.limit";
    let out = format_parsed(&parse(src.as_bytes()), 32).unwrap();
    assert_eq!(out, src);
}

#[test]
fn the_column_counts_the_call_operator() {
    let out = format_parsed(&parse(b"X.y([\"ab\", \"cd\"])"), 15).unwrap();
    assert_eq!(out, "X.y([\n  \"ab\",\n  \"cd\",\n])");
    let out = format_parsed(&parse(b"X.y([\"ab\", \"cd\"])"), 16).unwrap();
    assert_eq!(out, "X.y([\"ab\", \"cd\"])");
}
