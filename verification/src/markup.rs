//! Markup as text: how untrusted text is escaped before it enters a page,
//! the calls into `maud` that do the escaping, and the relations between a
//! fragment and the document that holds it.

use vstd::prelude::*;

verus! {

/// The document type declaration that opens every complete page.
pub const DOCTYPE_TEXT: &'static str = "<!DOCTYPE html>";

/// Opening tags of the root element and of the head, which follow the
/// document type declaration.
pub const DOCUMENT_OPEN: &'static str = "<html lang=\"es\"><head>";

/// Whether `c` has a meaning of its own in markup.
pub open spec fn is_special(c: char) -> bool {
    c == '&' || c == '<' || c == '>' || c == '"'
}

/// What one character of text becomes in markup: the four special
/// characters turn into entities, every other character stays.
pub open spec fn escaped_char(c: char) -> Seq<char> {
    if c == '&' {
        seq!['&', 'a', 'm', 'p', ';']
    } else if c == '<' {
        seq!['&', 'l', 't', ';']
    } else if c == '>' {
        seq!['&', 'g', 't', ';']
    } else if c == '"' {
        seq!['&', 'q', 'u', 'o', 't', ';']
    } else {
        seq![c]
    }
}

/// `text` with each character escaped, in order.
pub open spec fn escaped(text: Seq<char>) -> Seq<char>
    decreases text.len(),
{
    if text.len() == 0 {
        Seq::empty()
    } else {
        escaped(text.drop_last()) + escaped_char(text.last())
    }
}

/// Whether `part` stands in `whole` from position `at` on.
pub open spec fn occurs_at(whole: Seq<char>, part: Seq<char>, at: int) -> bool {
    &&& 0 <= at
    &&& at + part.len() <= whole.len()
    &&& whole.subrange(at, at + part.len()) == part
}

/// Whether `part` stands somewhere in `whole`.
pub open spec fn occurs_in(whole: Seq<char>, part: Seq<char>) -> bool {
    exists|at: int| occurs_at(whole, part, at)
}

/// Whether `whole` holds `part` and something more around it.
pub open spec fn strictly_within(part: Seq<char>, whole: Seq<char>) -> bool {
    occurs_in(whole, part) && part.len() < whole.len()
}

/// Whether `markup` is a complete document rather than a fragment of one: a
/// document opens with the document type declaration, the root element and
/// the head.
pub open spec fn is_document(markup: Seq<char>) -> bool {
    (DOCTYPE_TEXT@ + DOCUMENT_OPEN@).is_prefix_of(markup)
}

/// Appends `text` to `buffer`, escaped, as `maud` renders a `str` that a
/// template splices in (`maud::Render::render_to` for `str`). Trusted: `maud`
/// replaces `&`, `<`, `>` and `"` by `&amp;`, `&lt;`, `&gt;` and `&quot;` and
/// copies everything else.
#[verifier::external_body]
pub(crate) fn push_escaped(buffer: &mut String, text: &str)
    ensures
        final(buffer)@ == old(buffer)@ + escaped(text@),
{
    maud::Render::render_to(text, buffer);
}

/// Appends `markup` to `buffer` as it is, as `maud` renders a value wrapped in
/// `maud::PreEscaped` (`maud::Render::render_to` for `PreEscaped`). Trusted:
/// `maud` copies the wrapped text without escaping it.
#[verifier::external_body]
pub(crate) fn push_preescaped(buffer: &mut String, markup: &str)
    ensures
        final(buffer)@ == old(buffer)@ + markup@,
{
    maud::Render::render_to(&maud::PreEscaped(markup), buffer);
}

/// The document type declaration that `maud` provides (`maud::DOCTYPE`).
/// Trusted: its text is `<!DOCTYPE html>`.
#[verifier::external_body]
pub(crate) fn doctype() -> (text: &'static str)
    ensures
        text@ == DOCTYPE_TEXT@,
{
    maud::DOCTYPE.0
}

/// Escapes `text` for use as element content or as an attribute value.
pub fn escape(text: &str) -> (markup: String)
    ensures
        markup@ == escaped(text@),
{
    let mut markup = String::new();
    push_escaped(&mut markup, text);
    assert(markup@ =~= escaped(text@));
    markup
}

/// Escaped text cannot open or close a tag, nor end an attribute value:
/// none of `<`, `>` and `"` is left in it.
pub proof fn lemma_escaped_is_inert(text: Seq<char>)
    ensures
        forall|i: int|
            0 <= i < escaped(text).len() ==> {
                let c = #[trigger] escaped(text)[i];
                c != '<' && c != '>' && c != '"'
            },
    decreases text.len(),
{
    if text.len() > 0 {
        lemma_escaped_is_inert(text.drop_last());
        let head = escaped(text.drop_last());
        let tail = escaped_char(text.last());
        assert forall|i: int| 0 <= i < escaped(text).len() implies {
            let c = #[trigger] escaped(text)[i];
            c != '<' && c != '>' && c != '"'
        } by {
            if i < head.len() {
                assert(escaped(text)[i] == head[i]);
            } else {
                assert(escaped(text)[i] == tail[i - head.len()]);
            }
        }
    }
}

/// Text without special characters is its own escaped form.
pub proof fn lemma_escaped_plain(text: Seq<char>)
    requires
        forall|i: int| 0 <= i < text.len() ==> !is_special(#[trigger] text[i]),
    ensures
        escaped(text) == text,
    decreases text.len(),
{
    if text.len() > 0 {
        lemma_escaped_plain(text.drop_last());
        assert(escaped(text) =~= text);
    } else {
        assert(escaped(text) =~= text);
    }
}

/// Markup whose second character is not the `!` of the document type
/// declaration is no document.
pub proof fn lemma_not_document(markup: Seq<char>)
    requires
        markup.len() < 2 || markup[1] != '!',
    ensures
        !is_document(markup),
{
    reveal_strlit("<!DOCTYPE html>");
    let opening = DOCTYPE_TEXT@ + DOCUMENT_OPEN@;
    if is_document(markup) {
        assert(markup.subrange(0, opening.len() as int)[1] == markup[1]);
        assert(opening[1] == '!');
    }
}

/// A fragment put between a nonempty opening and a closing stands strictly
/// within the result.
pub proof fn lemma_wrapped_strictly_within(before: Seq<char>, part: Seq<char>, after: Seq<char>)
    requires
        before.len() + after.len() > 0,
    ensures
        strictly_within(part, before + part + after),
{
    let whole = before + part + after;
    let at = before.len() as int;
    assert(whole.subrange(at, at + part.len()) =~= part);
    assert(occurs_at(whole, part, at));
}

} // verus!
