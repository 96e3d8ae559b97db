//! Plain text as a form hands it over: white space, and trimming it away
//! from both ends of a field.

use vstd::prelude::*;
use vstd::string::StrSliceExecFns;

verus! {

/// Whether `c` is white space, as Unicode defines it (the property
/// `White_Space`): the space, tab and line breaks of ASCII among others.
pub open spec fn is_whitespace(c: char) -> bool {
    let code = c as u32;
    ||| 0x09 <= code <= 0x0D
    ||| code == 0x20
    ||| code == 0x85
    ||| code == 0xA0
    ||| code == 0x1680
    ||| 0x2000 <= code <= 0x200A
    ||| code == 0x2028
    ||| code == 0x2029
    ||| code == 0x202F
    ||| code == 0x205F
    ||| code == 0x3000
}

/// Whether all of `text` is white space; true of the empty text.
pub open spec fn is_blank(text: Seq<char>) -> bool {
    forall|i: int| 0 <= i < text.len() ==> is_whitespace(#[trigger] text[i])
}

/// `text` without the white space it begins with.
pub open spec fn trim_start(text: Seq<char>) -> Seq<char>
    decreases text.len(),
{
    if text.len() > 0 && is_whitespace(text.first()) {
        trim_start(text.drop_first())
    } else {
        text
    }
}

/// `text` without the white space it ends with.
pub open spec fn trim_end(text: Seq<char>) -> Seq<char>
    decreases text.len(),
{
    if text.len() > 0 && is_whitespace(text.last()) {
        trim_end(text.drop_last())
    } else {
        text
    }
}

/// `text` without the white space at either end.
pub open spec fn trimmed(text: Seq<char>) -> Seq<char> {
    trim_end(trim_start(text))
}

/// How many characters of white space `text` begins with.
spec fn leading(text: Seq<char>) -> int
    decreases text.len(),
{
    if text.len() > 0 && is_whitespace(text.first()) {
        1 + leading(text.drop_first())
    } else {
        0
    }
}

/// How many characters of `text` come before the white space it ends with.
spec fn kept(text: Seq<char>) -> int
    decreases text.len(),
{
    if text.len() > 0 && is_whitespace(text.last()) {
        kept(text.drop_last())
    } else {
        text.len() as int
    }
}

/// Whether `c` is white space.
pub fn char_is_whitespace(c: char) -> (white: bool)
    ensures
        white == is_whitespace(c),
{
    let code: u32 = c as u32;
    (0x09 <= code && code <= 0x0D) || code == 0x20 || code == 0x85 || code == 0xA0 || code
        == 0x1680 || (0x2000 <= code && code <= 0x200A) || code == 0x2028 || code == 0x2029
        || code == 0x202F || code == 0x205F || code == 0x3000
}

/// Whether `c` occurs in `text`.
pub fn contains_char(text: &str, c: char) -> (found: bool)
    ensures
        found == text@.contains(c),
{
    let mut found = false;
    for current in it: text.chars()
        invariant
            it.seq() == text@,
            found <==> exists|j: int| 0 <= j < it.index() && text@[j] == c,
    {
        found = found || current == c;
    }
    found
}

/// Removes the white space at both ends of `text`.
pub fn trim(text: &str) -> (inner: &str)
    ensures
        inner@ == trimmed(text@),
{
    let len = text.unicode_len();
    let mut start: usize = 0;
    let mut end: usize = 0;
    let mut i: usize = 0;
    for c in it: text.chars()
        invariant
            it.seq() == text@,
            len == text@.len(),
            i == it.index(),
            start <= end <= i,
            forall|j: int| 0 <= j < start ==> is_whitespace(#[trigger] text@[j]),
            forall|j: int| end <= j < i ==> is_whitespace(#[trigger] text@[j]),
            end == 0 ==> start == 0,
            end > 0 ==> start < end && !is_whitespace(text@[start as int]) && !is_whitespace(
                text@[end - 1],
            ),
    {
        if !char_is_whitespace(c) {
            if end == 0 {
                start = i;
            }
            end = i + 1;
        }
        i = i + 1;
    }
    proof {
        if end == 0 {
            lemma_trimmed_blank(text@);
            assert(text@.subrange(0, 0) =~= Seq::<char>::empty());
        } else {
            lemma_trimmed_between(text@, start as int, end as int);
        }
    }
    text.substring_char(start, end)
}

/// Without its leading white space, a text is what follows its first `k`
/// characters, where those are white space and the next one is not.
pub proof fn lemma_trim_start_skips(text: Seq<char>, k: int)
    requires
        0 <= k <= text.len(),
        forall|j: int| 0 <= j < k ==> is_whitespace(#[trigger] text[j]),
        k < text.len() ==> !is_whitespace(text[k]),
    ensures
        trim_start(text) == text.skip(k),
    decreases k,
{
    if k == 0 {
        assert(text.skip(0) =~= text);
    } else {
        let rest = text.drop_first();
        assert(is_whitespace(text[0]));
        assert forall|j: int| 0 <= j < k - 1 implies is_whitespace(#[trigger] rest[j]) by {
            assert(rest[j] == text[j + 1]);
        }
        lemma_trim_start_skips(rest, k - 1);
        assert(rest.skip(k - 1) =~= text.skip(k));
    }
}

/// Without its trailing white space, a text is its first `k` characters,
/// where all that follow are white space and the last of the `k` is not.
pub proof fn lemma_trim_end_takes(text: Seq<char>, k: int)
    requires
        0 <= k <= text.len(),
        forall|j: int| k <= j < text.len() ==> is_whitespace(#[trigger] text[j]),
        k > 0 ==> !is_whitespace(text[k - 1]),
    ensures
        trim_end(text) == text.take(k),
    decreases text.len() - k,
{
    if k == text.len() {
        assert(text.take(k) =~= text);
    } else {
        let rest = text.drop_last();
        assert(is_whitespace(text[text.len() - 1]));
        assert forall|j: int| k <= j < rest.len() implies is_whitespace(#[trigger] rest[j]) by {
            assert(rest[j] == text[j]);
        }
        lemma_trim_end_takes(rest, k);
        assert(rest.take(k) =~= text.take(k));
    }
}

/// Trimming keeps what lies between the first and the last character that
/// is not white space.
pub proof fn lemma_trimmed_between(text: Seq<char>, start: int, end: int)
    requires
        0 <= start < end <= text.len(),
        forall|j: int| 0 <= j < start ==> is_whitespace(#[trigger] text[j]),
        forall|j: int| end <= j < text.len() ==> is_whitespace(#[trigger] text[j]),
        !is_whitespace(text[start]),
        !is_whitespace(text[end - 1]),
    ensures
        trimmed(text) == text.subrange(start, end),
{
    lemma_trim_start_skips(text, start);
    let rest = text.skip(start);
    assert forall|j: int| end - start <= j < rest.len() implies is_whitespace(
        #[trigger] rest[j],
    ) by {
        assert(rest[j] == text[j + start]);
    }
    assert(rest[end - start - 1] == text[end - 1]);
    lemma_trim_end_takes(rest, end - start);
    assert(rest.take(end - start) =~= text.subrange(start, end));
}

/// Trimming leaves a text alone that neither begins nor ends with white
/// space.
pub proof fn lemma_trimmed_unpadded(text: Seq<char>)
    requires
        text.len() > 0,
        !is_whitespace(text.first()),
        !is_whitespace(text.last()),
    ensures
        trimmed(text) == text,
{
    lemma_trimmed_between(text, 0, text.len() as int);
    assert(text.subrange(0, text.len() as int) =~= text);
}

/// Trimming a text that is all white space leaves nothing.
pub proof fn lemma_trimmed_blank(text: Seq<char>)
    requires
        is_blank(text),
    ensures
        trimmed(text) == Seq::<char>::empty(),
{
    lemma_trim_start_skips(text, text.len() as int);
    assert(text.skip(text.len() as int) =~= Seq::<char>::empty());
}

/// A trimmed text neither begins nor ends with white space, and it is empty
/// only where the text was blank.
pub proof fn lemma_trimmed_ends(text: Seq<char>)
    ensures
        trimmed(text).len() > 0 ==> !is_whitespace(trimmed(text).first()) && !is_whitespace(
            trimmed(text).last(),
        ),
        trimmed(text).len() == 0 <==> is_blank(text),
{
    let k = leading(text);
    lemma_leading(text);
    lemma_trim_start_skips(text, k);
    let rest = text.skip(k);
    let m = kept(rest);
    lemma_kept(rest);
    lemma_trim_end_takes(rest, m);
    assert(trimmed(text) == rest.take(m));
    if k < text.len() {
        assert(rest[0] == text[k]);
        assert(m > 0) by {
            if m == 0 {
                assert(is_whitespace(rest[0]));
            }
        }
        assert(rest.take(m).first() == rest[0]);
        assert(rest.take(m).last() == rest[m - 1]);
        assert(!is_blank(text));
    } else {
        assert(rest.len() == 0);
    }
}

/// Trimming twice is trimming once.
pub proof fn lemma_trimmed_idempotent(text: Seq<char>)
    ensures
        trimmed(trimmed(text)) == trimmed(text),
{
    let once = trimmed(text);
    lemma_trimmed_ends(text);
    if once.len() > 0 {
        lemma_trimmed_unpadded(once);
    }
}

/// The leading white space of a text ends at its first character that is
/// not white space.
proof fn lemma_leading(text: Seq<char>)
    ensures
        0 <= leading(text) <= text.len(),
        forall|j: int| 0 <= j < leading(text) ==> is_whitespace(#[trigger] text[j]),
        leading(text) < text.len() ==> !is_whitespace(text[leading(text)]),
    decreases text.len(),
{
    if text.len() > 0 && is_whitespace(text.first()) {
        let rest = text.drop_first();
        lemma_leading(rest);
        assert forall|j: int| 0 <= j < leading(text) implies is_whitespace(#[trigger] text[j]) by {
            if j > 0 {
                assert(text[j] == rest[j - 1]);
            }
        }
        if leading(text) < text.len() {
            assert(text[leading(text)] == rest[leading(rest)]);
        }
    }
}

/// The trailing white space of a text begins behind its last character
/// that is not white space.
proof fn lemma_kept(text: Seq<char>)
    ensures
        0 <= kept(text) <= text.len(),
        forall|j: int| kept(text) <= j < text.len() ==> is_whitespace(#[trigger] text[j]),
        kept(text) > 0 ==> !is_whitespace(text[kept(text) - 1]),
    decreases text.len(),
{
    if text.len() > 0 && is_whitespace(text.last()) {
        let rest = text.drop_last();
        lemma_kept(rest);
        assert forall|j: int| kept(text) <= j < text.len() implies is_whitespace(
            #[trigger] text[j],
        ) by {
            if j < rest.len() {
                assert(text[j] == rest[j]);
            }
        }
        if kept(text) > 0 {
            assert(text[kept(text) - 1] == rest[kept(rest) - 1]);
        }
    }
}

} // verus!
