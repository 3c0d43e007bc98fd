//! The error taxonomy, the carrier type, its construction and the
//! conversions from the pipeline's stage errors.
use std::borrow::Cow;
use std::num::{ParseFloatError, ParseIntError};
use std::path::PathBuf;
use std::string::FromUtf8Error;
use crate::outside::{
    describe_position_text, lex_error_offset, lex_error_source, offset_in, parse_error_offset,
    parse_error_source, path_debug_text, position_text, transform_error_offset,
    transform_error_source,
};
use crate::render::{chain_separator, file_segment, kind_displayable, kind_message, push_parse_message};
use vstd::prelude::*;
use vstd::string::*;
use vstd::utf8::{encode_utf8, encode_utf8_valid_utf8, is_char_boundary};
use wain_syntax_text::lexer::{LexError, Token};
use wain_syntax_text::parser::ParseError;
use wain_syntax_text::wat2wasm::TransformError;

verus! {

/// The top-level category of a failure.
pub enum ErrorKind<'source> {
    Parse(ParseKind<'source>),
}

/// The concrete reason of a failure at the parsing stage.
pub enum ParseKind<'source> {
    Unexpected { expected: Cow<'static, str>, token: Option<Token<'source>> },
    EndOfFile { expected: &'static str },
    Utf8Error(FromUtf8Error),
    InvalidStringLiteral { lit: &'source str, reason: &'static str },
    InvalidInt { ty: &'static str, err: ParseIntError },
    TooSmallInt { ty: &'static str, digits: u64 },
    InvalidFloat { ty: &'static str, err: ParseFloatError },
    InvalidHexFloat { ty: &'static str },
    Lex(LexError<'source>),
    ParseWat(ParseError<'source>),
    Wat2Wasm(TransformError<'source>),
}

/// An error at a byte offset of a source text, possibly caused by an
/// earlier error and possibly annotated with the path of its file.
pub struct Error<'source> {
    pub pos: usize,
    source: &'source str,
    kind: ErrorKind<'source>,
    pub prev_error: Option<Box<Error<'source>>>,
    file: Option<PathBuf>,
}

/// The result of a pipeline step that fails with an [`Error`].
pub type Result<'s, T> = std::result::Result<T, Box<Error<'s>>>;

impl<'s> Error<'s> {
    /// The byte offset of the fault.
    pub closed spec fn spec_pos(&self) -> usize {
        self.pos
    }

    /// The earlier error that caused this one, if any.
    pub closed spec fn spec_prev(&self) -> Option<Box<Error<'s>>> {
        self.prev_error
    }

    /// The source text the error points into.
    pub closed spec fn source_text(&self) -> Seq<char> {
        self.source@
    }

    /// The classification of the error.
    pub closed spec fn spec_kind(&self) -> &ErrorKind<'s> {
        &self.kind
    }

    /// The attached file path, if any.
    pub closed spec fn spec_file(&self) -> Option<PathBuf> {
        self.file
    }

    /// A fresh error: the given classification at `pos` of `source`, with
    /// no predecessor and no file.
    pub fn parse_error(kind: ParseKind<'s>, source: &'s str, pos: usize) -> (r: Box<Error<'s>>)
        ensures
            r.spec_pos() == pos,
            r.source_text() == source@,
            r.spec_kind() == ErrorKind::Parse(kind),
            r.spec_prev() is None,
            r.spec_file() is None,
    {
        Box::new(Error { pos, source, kind: ErrorKind::Parse(kind), prev_error: None, file: None })
    }

    /// The source text the error points into.
    pub fn source(&self) -> (r: &'s str)
        ensures
            r@ == self.source_text(),
    {
        self.source
    }

    /// The classification of the error.
    pub fn kind(&self) -> (r: &ErrorKind<'s>)
        ensures
            r == self.spec_kind(),
    {
        &self.kind
    }

    /// The attached file path, if any.
    pub fn file(&self) -> (r: Option<&PathBuf>)
        ensures
            r == match self.spec_file() {
                Some(p) => Some(&p),
                None => None::<&PathBuf>,
            },
    {
        match &self.file {
            Some(p) => Some(p),
            None => None,
        }
    }

    /// The byte offset of the fault.
    pub fn pos(&self) -> (r: usize)
        ensures
            r == self.spec_pos(),
    {
        self.pos
    }

    /// Records `prev` as the earlier error that caused this one, replacing
    /// any predecessor it had.
    pub fn set_prev(&mut self, prev: Box<Error<'s>>)
        ensures
            final(self).spec_prev() == Some(prev),
            final(self).spec_pos() == old(self).spec_pos(),
            final(self).source_text() == old(self).source_text(),
            final(self).spec_kind() == old(self).spec_kind(),
            final(self).spec_file() == old(self).spec_file(),
    {
        self.prev_error = Some(prev);
    }

    /// Attaches (or replaces) the path of the file the source came from.
    pub fn set_file(&mut self, p: PathBuf)
        ensures
            final(self).spec_file() == Some(p),
            final(self).spec_pos() == old(self).spec_pos(),
            final(self).source_text() == old(self).source_text(),
            final(self).spec_kind() == old(self).spec_kind(),
            final(self).spec_prev() == old(self).spec_prev(),
    {
        self.file = Some(p);
    }
}

impl<'s> Error<'s> {
    /// The diagnostic of this error alone, without its predecessors.
    pub open spec fn head_text(&self) -> Seq<char> {
        kind_message(*self.spec_kind()) + file_segment(self.spec_file()) + position_text(
            self.source_text(),
            self.spec_pos(),
        )
    }

    /// Whether the offset of this error and of each predecessor lies on a
    /// character boundary of its source text, and each classification's
    /// payload can be displayed.
    pub closed spec fn wf(&self) -> bool
        decreases self,
    {
        &&& offset_in(self.source@, self.pos)
        &&& kind_displayable(self.kind)
        &&& match self.prev_error {
            Some(p) => p.wf(),
            None => true,
        }
    }

    /// The full diagnostic: this error, then each predecessor after the
    /// chain separator.
    pub closed spec fn rendered(&self) -> Seq<char>
        decreases self,
    {
        match self.prev_error {
            Some(p) => self.head_text() + chain_separator() + p.rendered(),
            None => self.head_text(),
        }
    }

    /// `wf` unfolded one link of the chain.
    pub proof fn lemma_wf_unfold(&self)
        ensures
            self.wf() == (offset_in(self.source_text(), self.spec_pos()) && kind_displayable(
                *self.spec_kind(),
            ) && match self.spec_prev() {
                Some(p) => p.wf(),
                None => true,
            }),
    {
    }

    /// `rendered` unfolded one link of the chain.
    pub proof fn lemma_rendered_unfold(&self)
        ensures
            self.rendered() == match self.spec_prev() {
                Some(p) => self.head_text() + chain_separator() + p.rendered(),
                None => self.head_text(),
            },
    {
    }

    /// Converts a lexer error: it becomes the payload, and its offset and
    /// source text become the error's.
    pub fn from_lex_error(err: Box<LexError<'s>>) -> (r: Box<Error<'s>>)
        ensures
            r.spec_pos() == lex_error_offset(*err),
            r.source_text() == lex_error_source(*err),
            r.spec_kind() == ErrorKind::Parse(ParseKind::Lex(*err)),
            r.spec_prev() is None,
            r.spec_file() is None,
    {
        let source = err.source();
        let offset = err.offset();
        Error::parse_error(ParseKind::Lex(*err), source, offset)
    }

    /// Converts a parser error: it becomes the payload, and its offset and
    /// source text become the error's.
    pub fn from_parse_error(err: Box<ParseError<'s>>) -> (r: Box<Error<'s>>)
        ensures
            r.spec_pos() == parse_error_offset(*err),
            r.source_text() == parse_error_source(*err),
            r.spec_kind() == ErrorKind::Parse(ParseKind::ParseWat(*err)),
            r.spec_prev() is None,
            r.spec_file() is None,
    {
        let source = err.source();
        let offset = err.offset();
        Error::parse_error(ParseKind::ParseWat(*err), source, offset)
    }

    /// Converts a transformer error: it becomes the payload, and its offset
    /// and source text become the error's.
    pub fn from_transform_error(err: Box<TransformError<'s>>) -> (r: Box<Error<'s>>)
        ensures
            r.spec_pos() == transform_error_offset(*err),
            r.source_text() == transform_error_source(*err),
            r.spec_kind() == ErrorKind::Parse(ParseKind::Wat2Wasm(*err)),
            r.spec_prev() is None,
            r.spec_file() is None,
    {
        let source = err.source();
        let offset = err.offset();
        Error::parse_error(ParseKind::Wat2Wasm(*err), source, offset)
    }
}

/// A character boundary of a text's UTF-8 encoding lies within it.
proof fn lemma_boundary_in_bounds(text: Seq<char>, i: int)
    requires
        is_char_boundary(encode_utf8(text), i),
    ensures
        0 <= i <= encode_utf8(text).len(),
{
    encode_utf8_valid_utf8(text);
}

impl<'s> Error<'s> {
    /// Appends the full diagnostic of this error and its predecessors.
    fn push_rendered(&self, out: &mut String)
        requires
            self.wf(),
        ensures
            final(out)@ == old(out)@ + self.rendered(),
        decreases self,
    {
        let ghost start = out@;
        match &self.kind {
            ErrorKind::Parse(k) => push_parse_message(out, k),
        }
        out.append(" while parsing");
        if let Some(path) = &self.file {
            out.append(" '");
            out.append(path_debug_text(path).as_str());
            out.append("'");
        }
        out.append(describe_position_text(self.source, self.pos).as_str());
        assert(out@ =~= start + self.head_text());
        if let Some(prev) = &self.prev_error {
            out.append("\n\nabove error may be caused by below previous error: ");
            prev.push_rendered(out);
        }
        assert(out@ =~= start + self.rendered());
    }

    /// Renders the diagnostic: the message, the stage, the file if one is
    /// attached, the position, then each predecessor after the chain
    /// separator.
    pub fn render(&self) -> (r: String)
        requires
            self.wf(),
        ensures
            r@ == self.rendered(),
    {
        let mut out = String::new();
        self.push_rendered(&mut out);
        assert(out@ =~= self.rendered());
        out
    }

    /// Whether every offset along the chain lies on a character boundary
    /// of its source text, as `render` requires.
    pub fn is_renderable(&self) -> (r: bool)
        ensures
            r == self.wf(),
        decreases self,
    {
        if !self.source.is_char_boundary(self.pos) {
            return false;
        }
        proof {
            lemma_boundary_in_bounds(self.source@, self.pos as int);
        }
        if let ErrorKind::Parse(ParseKind::Wat2Wasm(te)) = &self.kind {
            if !te.source().is_char_boundary(te.offset()) {
                return false;
            }
            proof {
                lemma_boundary_in_bounds(transform_error_source(*te), transform_error_offset(*te) as int);
            }
        }
        match &self.prev_error {
            Some(p) => p.is_renderable(),
            None => true,
        }
    }
}

/// Converts a lexer error with [`Error::from_lex_error`], so that `?` applies.
impl<'s> From<Box<LexError<'s>>> for Box<Error<'s>> {
    fn from(err: Box<LexError<'s>>) -> Box<Error<'s>> {
        Error::from_lex_error(err)
    }
}

// The conversions make no claim through `From`: what they produce is stated
// on the `from_*_error` functions they call.
impl<'s> vstd::std_specs::convert::FromSpecImpl<Box<LexError<'s>>> for Box<Error<'s>> {
    open spec fn obeys_from_spec() -> bool {
        false
    }

    open spec fn from_spec(v: Box<LexError<'s>>) -> Self {
        arbitrary()
    }
}

/// Converts a parser error with [`Error::from_parse_error`], so that `?` applies.
impl<'s> From<Box<ParseError<'s>>> for Box<Error<'s>> {
    fn from(err: Box<ParseError<'s>>) -> Box<Error<'s>> {
        Error::from_parse_error(err)
    }
}

impl<'s> vstd::std_specs::convert::FromSpecImpl<Box<ParseError<'s>>> for Box<Error<'s>> {
    open spec fn obeys_from_spec() -> bool {
        false
    }

    open spec fn from_spec(v: Box<ParseError<'s>>) -> Self {
        arbitrary()
    }
}

/// Converts a transformer error with [`Error::from_transform_error`], so that `?` applies.
impl<'s> From<Box<TransformError<'s>>> for Box<Error<'s>> {
    fn from(err: Box<TransformError<'s>>) -> Box<Error<'s>> {
        Error::from_transform_error(err)
    }
}

impl<'s> vstd::std_specs::convert::FromSpecImpl<Box<TransformError<'s>>> for Box<Error<'s>> {
    open spec fn obeys_from_spec() -> bool {
        false
    }

    open spec fn from_spec(v: Box<TransformError<'s>>) -> Self {
        arbitrary()
    }
}

} // verus!
