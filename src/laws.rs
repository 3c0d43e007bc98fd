//! Properties of conversion and rendering that hold for every error.
use crate::error::{Error, ErrorKind, ParseKind};
use crate::render::{chain_separator, file_segment, kind_displayable, kind_message, parse_message};
use crate::outside::{offset_in, path_debug, position_text};
use crate::text::decimal;
use std::path::PathBuf;
use vstd::prelude::*;
use vstd::utf8::{encode_utf8, encode_utf8_valid_utf8, is_char_boundary, pop_first_scalar, valid_utf8};

verus! {

/// Whether `t` occurs in `s` as a contiguous run of characters.
pub open spec fn contains(s: Seq<char>, t: Seq<char>) -> bool {
    exists|i: int| 0 <= i <= s.len() - t.len() && #[trigger] s.subrange(i, i + t.len()) == t
}

/// The end of a valid UTF-8 encoding is a character boundary.
proof fn lemma_end_is_boundary(bytes: Seq<u8>)
    requires
        valid_utf8(bytes),
    ensures
        is_char_boundary(bytes, bytes.len() as int),
    decreases bytes.len(),
{
    if bytes.len() > 0 {
        let rest = pop_first_scalar(bytes);
        assert(rest.len() < bytes.len());
        lemma_end_is_boundary(rest);
    }
}

/// The text after an error's own message: the stage, the file segment, the
/// position and the chain.
pub open spec fn after_message(e: Error) -> Seq<char> {
    " while parsing"@ + file_segment(e.spec_file()) + position_text(e.source_text(), e.spec_pos())
        + match e.spec_prev() {
        Some(p) => chain_separator() + p.rendered(),
        None => Seq::empty(),
    }
}

/// Every parsing classification renders as its message template followed
/// by the same text: two errors that differ only in their classification
/// differ only in the message, and nothing else of the wording.
pub proof fn law_message_template(a: Error, b: Error, ka: ParseKind, kb: ParseKind)
    requires
        *a.spec_kind() == ErrorKind::Parse(ka),
        *b.spec_kind() == ErrorKind::Parse(kb),
        a.spec_pos() == b.spec_pos(),
        a.source_text() == b.source_text(),
        a.spec_file() == b.spec_file(),
        a.spec_prev() == b.spec_prev(),
    ensures
        a.rendered() == parse_message(ka) + after_message(a),
        b.rendered() == parse_message(kb) + after_message(a),
{
    a.lemma_rendered_unfold();
    b.lemma_rendered_unfold();
    assert(a.rendered() =~= parse_message(ka) + after_message(a));
    assert(b.rendered() =~= parse_message(kb) + after_message(a));
}

/// With a predecessor, the diagnostic holds the chain separator, followed
/// directly by the full diagnostic of the predecessor, which ends it.
pub proof fn law_chain_present(e: Error)
    requires
        e.spec_prev() is Some,
    ensures
        e.rendered() == e.head_text() + chain_separator() + e.spec_prev()->0.rendered(),
        contains(e.rendered(), chain_separator()),
{
    e.lemma_rendered_unfold();
    let i = e.head_text().len() as int;
    assert(e.rendered().subrange(i, i + chain_separator().len()) =~= chain_separator());
}

/// Without a predecessor, the diagnostic is the error's own text alone: no
/// separator is added, so one appears only where the error's own text
/// already holds it.
pub proof fn law_chain_absent(e: Error)
    requires
        e.spec_prev() is None,
    ensures
        e.rendered() == e.head_text(),
        !contains(e.head_text(), chain_separator()) ==> !contains(e.rendered(), chain_separator()),
{
    e.lemma_rendered_unfold();
}

/// Attaching a path inserts exactly one segment, a space and the quoted
/// path, between the stage and the position; an error without a path has
/// no such segment.
pub proof fn law_file_segment(before: Error, after: Error, p: PathBuf)
    requires
        before.spec_file() is None,
        after.spec_file() == Some(p),
        after.spec_pos() == before.spec_pos(),
        after.source_text() == before.source_text(),
        after.spec_kind() == before.spec_kind(),
        after.spec_prev() == before.spec_prev(),
    ensures
        before.head_text() == kind_message(*before.spec_kind()) + position_text(
            before.source_text(),
            before.spec_pos(),
        ),
        after.head_text() == kind_message(*before.spec_kind()) + " '"@ + path_debug(p) + "'"@
            + position_text(before.source_text(), before.spec_pos()),
        before.rendered().len() + 3 + path_debug(p).len() == after.rendered().len(),
{
    before.lemma_rendered_unfold();
    after.lemma_rendered_unfold();
    assert(before.head_text() =~= kind_message(*before.spec_kind()) + position_text(
        before.source_text(),
        before.spec_pos(),
    ));
    assert(after.head_text() =~= kind_message(*before.spec_kind()) + " '"@ + path_debug(p) + "'"@
        + position_text(before.source_text(), before.spec_pos()));
    reveal_strlit(" '");
    reveal_strlit("'");
}

/// Rendering depends on the error's fields alone: errors that agree on
/// them render to the same text.
pub proof fn law_render_deterministic(a: Error, b: Error)
    requires
        a.spec_pos() == b.spec_pos(),
        a.source_text() == b.source_text(),
        a.spec_kind() == b.spec_kind(),
        a.spec_file() == b.spec_file(),
        a.spec_prev() == b.spec_prev(),
    ensures
        a.wf() == b.wf(),
        a.rendered() == b.rendered(),
{
    a.lemma_rendered_unfold();
    b.lemma_rendered_unfold();
    a.lemma_wf_unfold();
    b.lemma_wf_unfold();
}

/// An error at the very end of its source text, with a displayable
/// payload, can be rendered, and its position reads as the end of input.
pub proof fn law_end_of_input(e: Error)
    requires
        e.spec_pos() == encode_utf8(e.source_text()).len(),
        kind_displayable(*e.spec_kind()),
        e.spec_prev() is None,
    ensures
        e.wf(),
        position_text(e.source_text(), e.spec_pos()) == " caused at byte offset "@ + decimal(
            e.spec_pos() as nat,
        ) + " (end of input)"@,
{
    encode_utf8_valid_utf8(e.source_text());
    lemma_end_is_boundary(encode_utf8(e.source_text()));
    assert(offset_in(e.source_text(), e.spec_pos()));
    e.lemma_wf_unfold();
}

} // verus!
