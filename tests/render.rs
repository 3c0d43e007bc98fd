use std::borrow::Cow;
use std::path::PathBuf;
use wain_syntax_text::lexer::{Lexer, Token};
use wain_syntax_text::parser::Parser;
use wain_syntax_text::wat2wasm::wat2wasm;
use wat_error::{Error, ErrorKind, ParseKind};

const SRC: &str = "(i32.const abc)";

fn at_end(kind: ParseKind<'static>) -> String {
    let e = Error::parse_error(kind, "", 0);
    assert!(e.is_renderable());
    e.render()
}

fn int_error() -> std::num::ParseIntError {
    "abc".parse::<i32>().unwrap_err()
}

#[test]
fn invalid_int_scenario() {
    let e = Error::parse_error(ParseKind::InvalidInt { ty: "i32", err: int_error() }, SRC, 11);
    let text = e.render();
    assert!(text.starts_with(&format!("invalid int literal for i32: {} while parsing", int_error())));
    assert_eq!(
        text,
        "invalid int literal for i32: invalid digit found in string while parsing caused at byte offset 11\n\n ... abc)\n     ^\n     starts from here"
    );
}

#[test]
fn position_stops_at_line_break() {
    let src = "(module\n  (func))\r\n";
    let e = Error::parse_error(ParseKind::InvalidHexFloat { ty: "f32" }, src, 1);
    assert_eq!(
        e.render(),
        "invalid hex float number literal for f32 while parsing caused at byte offset 1\n\n ... module\n     ^\n     starts from here"
    );
    let e = Error::parse_error(ParseKind::InvalidHexFloat { ty: "f32" }, src, 7);
    assert_eq!(
        e.render(),
        "invalid hex float number literal for f32 while parsing caused at byte offset 7\n\n ... \n     ^\n     starts from here"
    );
}

#[test]
fn end_of_input_position() {
    let e = Error::parse_error(ParseKind::EndOfFile { expected: "')'" }, SRC, SRC.len());
    assert!(e.is_renderable());
    assert_eq!(
        e.render(),
        "unxpected EOF while ')' is expected while parsing caused at byte offset 15 (end of input)"
    );
}

#[test]
fn empty_source_end_of_input() {
    assert_eq!(
        at_end(ParseKind::InvalidHexFloat { ty: "f64" }),
        "invalid hex float number literal for f64 while parsing caused at byte offset 0 (end of input)"
    );
}

#[test]
fn offsets_out_of_range_or_inside_a_char_are_not_renderable() {
    let e = Error::parse_error(ParseKind::InvalidHexFloat { ty: "f32" }, "ab", 3);
    assert!(!e.is_renderable());
    let e = Error::parse_error(ParseKind::InvalidHexFloat { ty: "f32" }, "é", 1);
    assert!(!e.is_renderable());
    let e = Error::parse_error(ParseKind::InvalidHexFloat { ty: "f32" }, "é", 2);
    assert!(e.is_renderable());
    let mut e = Error::parse_error(ParseKind::InvalidHexFloat { ty: "f32" }, "ab", 1);
    e.prev_error = Some(Error::parse_error(ParseKind::InvalidHexFloat { ty: "f32" }, "ab", 9));
    assert!(!e.is_renderable());
}

#[test]
fn unexpected_without_token() {
    assert_eq!(
        at_end(ParseKind::Unexpected { expected: Cow::Borrowed("keyword"), token: None }),
        "unexpected token while keyword is expected while parsing caused at byte offset 0 (end of input)"
    );
}

#[test]
fn unexpected_with_token() {
    let token = match Lexer::new("(").lex() {
        Ok(Some((token, _))) => token,
        _ => panic!("'(' does not lex to a token"),
    };
    assert!(matches!(token, Token::LParen));
    let e = Error::parse_error(
        ParseKind::Unexpected { expected: Cow::Owned("identifier".to_string()), token: Some(token) },
        "(",
        0,
    );
    assert_eq!(
        e.render(),
        "unexpected token paren '(' while identifier is expected while parsing caused at byte offset 0\n\n ... (\n     ^\n     starts from here"
    );
}

#[test]
fn utf8_error_message() {
    let err = String::from_utf8(vec![0xff]).unwrap_err();
    let expected = format!(
        "cannot parse text as UTF-8: {} while parsing caused at byte offset 0 (end of input)",
        err
    );
    assert_eq!(at_end(ParseKind::Utf8Error(err)), expected);
}

#[test]
fn invalid_string_literal_message() {
    assert_eq!(
        at_end(ParseKind::InvalidStringLiteral { lit: "\"\\q\"", reason: "bad escape" }),
        "invalid string literal '\"\\q\"': bad escape while parsing caused at byte offset 0 (end of input)"
    );
}

#[test]
fn too_small_int_message() {
    assert_eq!(
        at_end(ParseKind::TooSmallInt { ty: "i8", digits: 129 }),
        "-129 is too small value for i8 while parsing caused at byte offset 0 (end of input)"
    );
    assert_eq!(
        at_end(ParseKind::TooSmallInt { ty: "i64", digits: 0 }),
        "-0 is too small value for i64 while parsing caused at byte offset 0 (end of input)"
    );
    assert_eq!(
        at_end(ParseKind::TooSmallInt { ty: "i64", digits: u64::MAX }),
        "-18446744073709551615 is too small value for i64 while parsing caused at byte offset 0 (end of input)"
    );
}

#[test]
fn invalid_float_message() {
    let err = "x".parse::<f64>().unwrap_err();
    assert_eq!(
        at_end(ParseKind::InvalidFloat { ty: "f64", err }),
        "invalid float number literal for f64: invalid float literal while parsing caused at byte offset 0 (end of input)"
    );
}

#[test]
fn payload_changes_only_the_fields() {
    let a = at_end(ParseKind::TooSmallInt { ty: "i8", digits: 129 });
    let b = at_end(ParseKind::TooSmallInt { ty: "i16", digits: 40000 });
    assert_eq!(a.replace("129", "N").replace("i8", "T"), b.replace("40000", "N").replace("i16", "T"));
}

#[test]
fn lex_error_conversion() {
    let src = "(module \"abc";
    let mut lexer = Lexer::new(src);
    let err = loop {
        match lexer.lex() {
            Ok(Some(_)) => {}
            Ok(None) => panic!("an unterminated string lexes"),
            Err(err) => break err,
        }
    };
    let offset = err.offset();
    let text = err.to_string();
    let e = Error::from_lex_error(err);
    assert_eq!(e.pos, offset);
    assert_eq!(e.source(), src);
    assert!(std::ptr::eq(e.source(), src));
    assert!(e.prev_error.is_none());
    assert!(e.file().is_none());
    assert!(matches!(e.kind(), ErrorKind::Parse(ParseKind::Lex(_))));
    assert!(e.render().starts_with(&format!("lexer error: {} while parsing caused at byte offset {}", text, offset)));
}

#[test]
fn parse_error_conversion() {
    let src = "(module";
    let err = match Parser::new(src).parse_wat() {
        Ok(_) => panic!("an unclosed module parses"),
        Err(err) => err,
    };
    let offset = err.offset();
    let text = err.to_string();
    let e = Error::from_parse_error(err);
    assert_eq!(e.pos, offset);
    assert!(std::ptr::eq(e.source(), src));
    assert!(matches!(e.kind(), ErrorKind::Parse(ParseKind::ParseWat(_))));
    assert!(e.render().starts_with(&format!("parse error on parsing WAT module: {} while parsing", text)));
}

#[test]
fn transform_error_conversion() {
    let src = "(module (func (call $nowhere)))";
    let parsed = match Parser::new(src).parse_wat() {
        Ok(parsed) => parsed,
        Err(err) => panic!("{}", err),
    };
    let err = match wat2wasm(parsed, src) {
        Ok(_) => panic!("an undefined function is transformed"),
        Err(err) => err,
    };
    let offset = err.offset();
    let text = err.to_string();
    let e = Error::from_transform_error(err);
    assert_eq!(e.pos, offset);
    assert!(std::ptr::eq(e.source(), src));
    assert!(matches!(e.kind(), ErrorKind::Parse(ParseKind::Wat2Wasm(_))));
    assert!(e.render().starts_with(&format!("could not transform from WAT to WASM: {} while parsing", text)));
}

#[test]
fn chained_error_renders_predecessor() {
    let prev = Error::parse_error(ParseKind::InvalidInt { ty: "i32", err: int_error() }, SRC, 11);
    let prev_text = prev.render();
    let mut e = Error::parse_error(ParseKind::EndOfFile { expected: "')'" }, SRC, 15);
    assert!(!e.render().contains("above error may be caused by below previous error"));
    e.prev_error = Some(prev);
    let text = e.render();
    let sep = "\n\nabove error may be caused by below previous error: ";
    assert_eq!(
        text,
        format!(
            "unxpected EOF while ')' is expected while parsing caused at byte offset 15 (end of input){}{}",
            sep, prev_text
        )
    );
    assert!(text.ends_with(&format!("{}{}", sep, prev_text)));
}

#[test]
fn chain_of_three() {
    let a = Error::parse_error(ParseKind::InvalidHexFloat { ty: "f32" }, "", 0);
    let mut b = Error::parse_error(ParseKind::InvalidHexFloat { ty: "f64" }, "", 0);
    b.prev_error = Some(a);
    let mut c = Error::parse_error(ParseKind::TooSmallInt { ty: "i8", digits: 200 }, "", 0);
    c.prev_error = Some(b);
    assert_eq!(c.render().matches("above error may be caused by below previous error: ").count(), 2);
}

#[test]
fn file_annotation() {
    let mut e = Error::parse_error(ParseKind::InvalidInt { ty: "i32", err: int_error() }, SRC, 11);
    let before = e.render();
    assert!(!before.contains("a.wat"));
    e.set_file(PathBuf::from("dir/a.wat"));
    let after = e.render();
    assert_eq!(after.matches("\"dir/a.wat\"").count(), 1);
    assert_eq!(
        after,
        "invalid int literal for i32: invalid digit found in string while parsing '\"dir/a.wat\"' caused at byte offset 11\n\n ... abc)\n     ^\n     starts from here"
    );
    e.set_file(PathBuf::from("b.wat"));
    assert!(e.render().contains(" while parsing '\"b.wat\"' caused"));
    assert!(!e.render().contains("a.wat"));
    assert_eq!(e.file(), Some(&PathBuf::from("b.wat")));
    assert_eq!(e.pos, 11);
}

#[test]
fn rendering_twice_is_identical() {
    let mut e = Error::parse_error(ParseKind::InvalidInt { ty: "i32", err: int_error() }, SRC, 11);
    e.set_file(PathBuf::from("x.wat"));
    e.prev_error = Some(Error::parse_error(ParseKind::InvalidHexFloat { ty: "f32" }, SRC, 1));
    assert_eq!(e.render(), e.render());
}

fn lex_all(src: &str) -> wat_error::Result<'_, usize> {
    let mut lexer = Lexer::new(src);
    let mut count: usize = 0;
    while lexer.lex()?.is_some() {
        count += 1;
    }
    Ok(count)
}

#[test]
fn question_mark_converts_stage_errors() {
    assert_eq!(lex_all("(module)").ok(), Some(3));
    let e = match lex_all("(module \"abc") {
        Ok(_) => panic!("an unterminated string lexes"),
        Err(e) => e,
    };
    assert_eq!(e.pos, 8);
    assert!(matches!(e.kind(), ErrorKind::Parse(ParseKind::Lex(_))));
    assert!(e.render().starts_with("lexer error: string literal is not terminated"));
}

#[test]
fn set_prev_builds_a_chain() {
    let prev = Error::parse_error(ParseKind::InvalidHexFloat { ty: "f32" }, SRC, 1);
    let prev_text = prev.render();
    let mut e = Error::parse_error(ParseKind::TooSmallInt { ty: "i8", digits: 200 }, SRC, SRC.len());
    e.set_file(PathBuf::from("c.wat"));
    e.set_prev(prev);
    assert_eq!(e.pos(), SRC.len());
    assert_eq!(e.file(), Some(&PathBuf::from("c.wat")));
    assert!(e.is_renderable());
    assert_eq!(
        e.render(),
        format!(
            "-200 is too small value for i8 while parsing '\"c.wat\"' caused at byte offset 15 (end of input)\n\nabove error may be caused by below previous error: {}",
            prev_text
        )
    );
}

#[test]
fn transform_error_on_another_text_is_not_renderable() {
    let parsed = match Parser::new("(module (func (call $nowhere)))").parse_wat() {
        Ok(parsed) => parsed,
        Err(err) => panic!("{}", err),
    };
    let err = match wat2wasm(parsed, "") {
        Ok(_) => panic!("an undefined function is transformed"),
        Err(err) => err,
    };
    assert!(err.offset() > 0);
    let e = Error::parse_error(ParseKind::Wat2Wasm(*err), "x", 0);
    assert!(!e.is_renderable());
}
