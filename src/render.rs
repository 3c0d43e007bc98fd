//! The wording of diagnostics: the message of each classification and the
//! fixed segments around it.
use crate::error::{ErrorKind, ParseKind};
use crate::outside::{
    float_error_display, float_error_text, int_error_display, int_error_text, lex_error_display,
    lex_error_text, offset_in, parse_error_display, parse_error_text, path_debug, token_display, token_text,
    transform_error_display, transform_error_offset, transform_error_source, transform_error_text, utf8_error_display, utf8_error_text,
};
use crate::text::{decimal, push_decimal};
use std::borrow::Cow;
use std::path::PathBuf;
use vstd::prelude::*;
use vstd::string::*;

verus! {

/// The separator between an error and the rendering of its predecessor.
pub open spec fn chain_separator() -> Seq<char> {
    "\n\nabove error may be caused by below previous error: "@
}

/// The classification-specific message of a parsing failure.
pub open spec fn parse_message(k: ParseKind) -> Seq<char> {
    match k {
        ParseKind::Lex(e) => "lexer error: "@ + lex_error_display(e),
        ParseKind::ParseWat(e) => "parse error on parsing WAT module: "@ + parse_error_display(e),
        ParseKind::Wat2Wasm(e) => "could not transform from WAT to WASM: "@
            + transform_error_display(e),
        ParseKind::Unexpected { expected, token: None } => "unexpected token while "@ + expected@
            + " is expected"@,
        ParseKind::Unexpected { expected, token: Some(t) } => "unexpected token "@ + token_display(t)
            + " while "@ + expected@ + " is expected"@,
        ParseKind::EndOfFile { expected } => "unxpected EOF while "@ + expected@ + " is expected"@,
        ParseKind::Utf8Error(e) => "cannot parse text as UTF-8: "@ + utf8_error_display(e),
        ParseKind::InvalidStringLiteral { lit, reason } => "invalid string literal '"@ + lit@
            + "': "@ + reason@,
        ParseKind::InvalidInt { ty, err } => "invalid int literal for "@ + ty@ + ": "@
            + int_error_display(err),
        ParseKind::TooSmallInt { ty, digits } => "-"@ + decimal(digits as nat)
            + " is too small value for "@ + ty@,
        ParseKind::InvalidFloat { ty, err } => "invalid float number literal for "@ + ty@ + ": "@
            + float_error_display(err),
        ParseKind::InvalidHexFloat { ty } => "invalid hex float number literal for "@ + ty@,
    }
}

/// Whether the payload of a classification can be displayed: a
/// transformer error's offset must lie on a character boundary of its own
/// source text, which its message describes.
pub open spec fn kind_displayable(k: ErrorKind) -> bool {
    match k {
        ErrorKind::Parse(ParseKind::Wat2Wasm(e)) => offset_in(
            transform_error_source(e),
            transform_error_offset(e),
        ),
        _ => true,
    }
}

/// The message of a classification followed by the stage it happened in.
pub open spec fn kind_message(k: ErrorKind) -> Seq<char> {
    match k {
        ErrorKind::Parse(p) => parse_message(p) + " while parsing"@,
    }
}

/// The file segment of a diagnostic: empty without a file, else a space and
/// the quoted path.
pub open spec fn file_segment(file: Option<PathBuf>) -> Seq<char> {
    match file {
        Some(p) => " '"@ + path_debug(p) + "'"@,
        None => Seq::empty(),
    }
}

/// Appends the text of an expected-construct description.
fn push_cow(out: &mut String, s: &Cow<'static, str>)
    ensures
        final(out)@ == old(out)@ + s@,
{
    match s {
        Cow::Borrowed(b) => out.append(b),
        Cow::Owned(o) => out.append(o.as_str()),
    }
}

/// Appends the classification-specific message of `k`.
pub(crate) fn push_parse_message(out: &mut String, k: &ParseKind)
    requires
        kind_displayable(ErrorKind::Parse(*k)),
    ensures
        final(out)@ == old(out)@ + parse_message(*k),
{
    let ghost start = out@;
    match k {
        ParseKind::Lex(e) => {
            out.append("lexer error: ");
            out.append(lex_error_text(e).as_str());
        },
        ParseKind::ParseWat(e) => {
            out.append("parse error on parsing WAT module: ");
            out.append(parse_error_text(e).as_str());
        },
        ParseKind::Wat2Wasm(e) => {
            out.append("could not transform from WAT to WASM: ");
            out.append(transform_error_text(e).as_str());
        },
        ParseKind::Unexpected { expected, token: None } => {
            out.append("unexpected token while ");
            push_cow(out, expected);
            out.append(" is expected");
        },
        ParseKind::Unexpected { expected, token: Some(t) } => {
            out.append("unexpected token ");
            out.append(token_text(t).as_str());
            out.append(" while ");
            push_cow(out, expected);
            out.append(" is expected");
        },
        ParseKind::EndOfFile { expected } => {
            out.append("unxpected EOF while ");
            out.append(expected);
            out.append(" is expected");
        },
        ParseKind::Utf8Error(e) => {
            out.append("cannot parse text as UTF-8: ");
            out.append(utf8_error_text(e).as_str());
        },
        ParseKind::InvalidStringLiteral { lit, reason } => {
            out.append("invalid string literal '");
            out.append(lit);
            out.append("': ");
            out.append(reason);
        },
        ParseKind::InvalidInt { ty, err } => {
            out.append("invalid int literal for ");
            out.append(ty);
            out.append(": ");
            out.append(int_error_text(err).as_str());
        },
        ParseKind::TooSmallInt { ty, digits } => {
            out.append("-");
            push_decimal(out, *digits);
            out.append(" is too small value for ");
            out.append(ty);
        },
        ParseKind::InvalidFloat { ty, err } => {
            out.append("invalid float number literal for ");
            out.append(ty);
            out.append(": ");
            out.append(float_error_text(err).as_str());
        },
        ParseKind::InvalidHexFloat { ty } => {
            out.append("invalid hex float number literal for ");
            out.append(ty);
        },
    }
    assert(out@ =~= start + parse_message(*k));
}

} // verus!
