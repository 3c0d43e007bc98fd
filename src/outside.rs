//! Declarations of the outside types this library carries, and the calls
//! into `wain_syntax_text` and std whose results the library relies on.
use std::num::{ParseFloatError, ParseIntError};
use std::path::PathBuf;
use std::string::FromUtf8Error;
use crate::text::{decimal, line_prefix};
use vstd::prelude::*;
use vstd::utf8::{decode_utf8, encode_utf8, is_char_boundary};
use wain_syntax_text::lexer::{LexError, Token};
use wain_syntax_text::source::describe_position;
use wain_syntax_text::parser::ParseError;
use wain_syntax_text::wat2wasm::TransformError;

verus! {

#[verifier::external_type_specification]
#[verifier::external_body]
pub struct ExToken<'s>(Token<'s>);

#[verifier::external_type_specification]
#[verifier::external_body]
pub struct ExLexError<'s>(LexError<'s>);

#[verifier::external_type_specification]
#[verifier::external_body]
pub struct ExParseError<'s>(ParseError<'s>);

#[verifier::external_type_specification]
#[verifier::external_body]
pub struct ExTransformError<'s>(TransformError<'s>);

#[verifier::external_type_specification]
#[verifier::external_body]
pub struct ExParseIntError(ParseIntError);

#[verifier::external_type_specification]
#[verifier::external_body]
pub struct ExParseFloatError(ParseFloatError);

#[verifier::external_type_specification]
#[verifier::external_body]
pub struct ExFromUtf8Error(FromUtf8Error);

#[verifier::external_type_specification]
#[verifier::external_body]
pub struct ExPathBuf(PathBuf);

/// The byte offset that a lexer error reports.
pub uninterp spec fn lex_error_offset(e: LexError) -> usize;

/// The source text that a lexer error reports.
pub uninterp spec fn lex_error_source(e: LexError) -> Seq<char>;

/// Relies on `LexError::offset`, a getter of the error's offset field.
pub assume_specification<'s>[ LexError::<'s>::offset ](e: &LexError<'s>) -> (r: usize)
    ensures
        r == lex_error_offset(*e),
;

/// Relies on `LexError::source`, a getter of the error's source field.
pub assume_specification<'s>[ LexError::<'s>::source ](e: &LexError<'s>) -> (r: &'s str)
    ensures
        r@ == lex_error_source(*e),
;

/// The byte offset that a parser error reports.
pub uninterp spec fn parse_error_offset(e: ParseError) -> usize;

/// The source text that a parser error reports.
pub uninterp spec fn parse_error_source(e: ParseError) -> Seq<char>;

/// Relies on `ParseError::offset`, a getter of the error's offset field.
pub assume_specification<'s>[ ParseError::<'s>::offset ](e: &ParseError<'s>) -> (r: usize)
    ensures
        r == parse_error_offset(*e),
;

/// Relies on `ParseError::source`, a getter of the error's source field.
pub assume_specification<'s>[ ParseError::<'s>::source ](e: &ParseError<'s>) -> (r: &'s str)
    ensures
        r@ == parse_error_source(*e),
;

/// The byte offset that a transformer error reports.
pub uninterp spec fn transform_error_offset(e: TransformError) -> usize;

/// The source text that a transformer error reports.
pub uninterp spec fn transform_error_source(e: TransformError) -> Seq<char>;

/// Relies on `TransformError::offset`, a getter of the error's offset field.
pub assume_specification<'s>[ TransformError::<'s>::offset ](e: &TransformError<'s>) -> (r: usize)
    ensures
        r == transform_error_offset(*e),
;

/// Relies on `TransformError::source`, a getter of the error's source field.
pub assume_specification<'s>[ TransformError::<'s>::source ](e: &TransformError<'s>) -> (r: &'s str)
    ensures
        r@ == transform_error_source(*e),
;

/// What `Display` writes for a token.
pub uninterp spec fn token_display(t: Token) -> Seq<char>;

/// Relies on `Token`'s `Display` impl, which depends on the token alone.
#[verifier::external_body]
pub(crate) fn token_text(t: &Token) -> (r: String)
    ensures
        r@ == token_display(*t),
{
    t.to_string()
}

/// What `Display` writes for a lexer error.
pub uninterp spec fn lex_error_display(e: LexError) -> Seq<char>;

/// Relies on `LexError`'s `Display` impl, which depends on the error alone.
#[verifier::external_body]
pub(crate) fn lex_error_text(e: &LexError) -> (r: String)
    ensures
        r@ == lex_error_display(*e),
{
    e.to_string()
}

/// What `Display` writes for a parser error.
pub uninterp spec fn parse_error_display(e: ParseError) -> Seq<char>;

/// Relies on `ParseError`'s `Display` impl, which depends on the error alone.
#[verifier::external_body]
pub(crate) fn parse_error_text(e: &ParseError) -> (r: String)
    ensures
        r@ == parse_error_display(*e),
{
    e.to_string()
}

/// What `Display` writes for a transformer error.
pub uninterp spec fn transform_error_display(e: TransformError) -> Seq<char>;

/// Relies on `TransformError`'s `Display` impl, which depends on the error
/// alone. It ends by describing the error's offset in its own source text,
/// which slices that text there: a transformer may pair any text with its
/// offsets, so the offset must lie on a character boundary of it.
#[verifier::external_body]
pub(crate) fn transform_error_text(e: &TransformError) -> (r: String)
    requires
        offset_in(transform_error_source(*e), transform_error_offset(*e)),
    ensures
        r@ == transform_error_display(*e),
{
    e.to_string()
}

/// What `Display` writes for a UTF-8 decoding failure.
pub uninterp spec fn utf8_error_display(e: FromUtf8Error) -> Seq<char>;

/// Relies on `FromUtf8Error`'s `Display` impl, which depends on the error alone.
#[verifier::external_body]
pub(crate) fn utf8_error_text(e: &FromUtf8Error) -> (r: String)
    ensures
        r@ == utf8_error_display(*e),
{
    e.to_string()
}

/// What `Display` writes for an integer parse failure.
pub uninterp spec fn int_error_display(e: ParseIntError) -> Seq<char>;

/// Relies on `ParseIntError`'s `Display` impl, which depends on the error alone.
#[verifier::external_body]
pub(crate) fn int_error_text(e: &ParseIntError) -> (r: String)
    ensures
        r@ == int_error_display(*e),
{
    e.to_string()
}

/// What `Display` writes for a float parse failure.
pub uninterp spec fn float_error_display(e: ParseFloatError) -> Seq<char>;

/// Relies on `ParseFloatError`'s `Display` impl, which depends on the error alone.
#[verifier::external_body]
pub(crate) fn float_error_text(e: &ParseFloatError) -> (r: String)
    ensures
        r@ == float_error_display(*e),
{
    e.to_string()
}

/// What `Debug` writes for a path: the path quoted, with special characters escaped.
pub uninterp spec fn path_debug(p: PathBuf) -> Seq<char>;

/// Relies on `PathBuf`'s `Debug` impl, which depends on the path alone.
#[verifier::external_body]
pub(crate) fn path_debug_text(p: &PathBuf) -> (r: String)
    ensures
        r@ == path_debug(*p),
{
    format!("{:?}", p)
}

/// Whether `pos` is a byte offset at a character boundary of `source`,
/// the end of the text included.
pub open spec fn offset_in(source: Seq<char>, pos: usize) -> bool {
    &&& pos <= encode_utf8(source).len()
    &&& is_char_boundary(encode_utf8(source), pos as int)
}

/// The description of byte offset `pos` of `source`: the offset, and the
/// rest of its line unless `pos` is the end of the text.
pub open spec fn position_text(source: Seq<char>, pos: usize) -> Seq<char> {
    let bytes = encode_utf8(source);
    if pos == bytes.len() {
        " caused at byte offset "@ + decimal(pos as nat) + " (end of input)"@
    } else {
        " caused at byte offset "@ + decimal(pos as nat) + "\n\n ... "@ + line_prefix(
            decode_utf8(bytes.subrange(pos as int, bytes.len() as int)),
        ) + "\n     ^\n     starts from here"@
    }
}

/// Relies on `wain_syntax_text::source::describe_position`, which writes
/// the offset, then either "(end of input)" or the source from `pos` up to
/// the next line break followed by a caret line. It slices the text at
/// `pos`, so `pos` must lie on a character boundary.
#[verifier::external_body]
pub(crate) fn describe_position_text(source: &str, pos: usize) -> (r: String)
    requires
        offset_in(source@, pos),
    ensures
        r@ == position_text(source@, pos),
{
    format!("{}", std::fmt::from_fn(|f| describe_position(f, source, pos)))
}

} // verus!
