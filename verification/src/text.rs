//! Text helpers: decoding bytes, whitespace, trimming and joining.

use vstd::prelude::*;
use vstd::string::{StrSliceExecFns, StringExecFns};
use vstd::utf8::{decode_utf8, valid_utf8};

verus! {

/// The text that lossy decoding gives for bytes that are not valid UTF-8.
pub uninterp spec fn utf8_lossy(bytes: Seq<u8>) -> Seq<char>;

/// The text that `bytes` decode to: their characters when they are valid
/// UTF-8, and the lossy reading otherwise.
pub open spec fn text_of(bytes: Seq<u8>) -> Seq<char> {
    if valid_utf8(bytes) {
        decode_utf8(bytes)
    } else {
        utf8_lossy(bytes)
    }
}

/// Calls `String::from_utf8_lossy`. The contract says that valid UTF-8 is
/// decoded as it stands, and that for other input the result depends on the
/// bytes alone; what the replacement looks like is not modelled.
#[verifier::external_body]
pub(crate) fn string_from_bytes(bytes: &[u8]) -> (text: String)
    ensures
        valid_utf8(bytes@) ==> text@ == decode_utf8(bytes@),
        !valid_utf8(bytes@) ==> text@ == utf8_lossy(bytes@),
{
    String::from_utf8_lossy(bytes).into_owned()
}

/// Whether a character counts as whitespace: whether it has the Unicode
/// property `White_Space`. These are the controls from tab to carriage
/// return, the space, the next-line control, the no-break space, the ogham
/// space mark, the spaces from en quad to hair space, the line and the
/// paragraph separator, the narrow no-break space, the medium mathematical
/// space and the ideographic space.
pub open spec fn is_whitespace(c: char) -> bool {
    let code = c as u32;
    ||| 0x09 <= code <= 0x0d
    ||| code == 0x20
    ||| code == 0x85
    ||| code == 0xa0
    ||| code == 0x1680
    ||| 0x2000 <= code <= 0x200a
    ||| code == 0x2028
    ||| code == 0x2029
    ||| code == 0x202f
    ||| code == 0x205f
    ||| code == 0x3000
}

/// Calls `char::is_whitespace`, which answers whether the character has the
/// Unicode property `White_Space`; the contract states that set.
#[verifier::external_body]
pub(crate) fn char_is_whitespace(c: char) -> (answer: bool)
    ensures
        answer == is_whitespace(c),
{
    c.is_whitespace()
}

/// The number of whitespace characters that `s` starts with.
pub open spec fn leading_whitespace(s: Seq<char>) -> nat
    decreases s.len(),
{
    if s.len() > 0 && is_whitespace(s.first()) {
        1 + leading_whitespace(s.drop_first())
    } else {
        0
    }
}

/// The number of whitespace characters that `s` ends with.
pub open spec fn trailing_whitespace(s: Seq<char>) -> nat
    decreases s.len(),
{
    if s.len() > 0 && is_whitespace(s.last()) {
        1 + trailing_whitespace(s.drop_last())
    } else {
        0
    }
}

/// `s` without the whitespace at its two ends.
pub open spec fn trimmed(s: Seq<char>) -> Seq<char> {
    if leading_whitespace(s) + trailing_whitespace(s) >= s.len() {
        Seq::empty()
    } else {
        s.subrange(leading_whitespace(s) as int, s.len() - trailing_whitespace(s))
    }
}

/// `k` is the number of leading whitespace characters of `s` exactly when
/// the first `k` characters are whitespace and the next one, if any, is not.
pub proof fn lemma_leading_whitespace(s: Seq<char>, k: int)
    requires
        0 <= k <= s.len(),
        forall|i: int| 0 <= i < k ==> is_whitespace(s[i]),
        k < s.len() ==> !is_whitespace(s[k]),
    ensures
        leading_whitespace(s) == k,
    decreases s.len(),
{
    if k > 0 {
        let rest = s.drop_first();
        assert forall|i: int| 0 <= i < k - 1 implies is_whitespace(rest[i]) by {
            assert(rest[i] == s[i + 1]);
        }
        lemma_leading_whitespace(rest, k - 1);
    }
}

/// `k` is the number of trailing whitespace characters of `s` exactly when
/// the last `k` characters are whitespace and the one before, if any, is not.
pub proof fn lemma_trailing_whitespace(s: Seq<char>, k: int)
    requires
        0 <= k <= s.len(),
        forall|i: int| s.len() - k <= i < s.len() ==> is_whitespace(s[i]),
        k < s.len() ==> !is_whitespace(s[s.len() - k - 1]),
    ensures
        trailing_whitespace(s) == k,
    decreases s.len(),
{
    if k > 0 {
        let rest = s.drop_last();
        assert forall|i: int| rest.len() - (k - 1) <= i < rest.len() implies is_whitespace(
            rest[i],
        ) by {
            assert(rest[i] == s[i]);
        }
        lemma_trailing_whitespace(rest, k - 1);
    }
}

/// The leading whitespace of `s` is whitespace, and what follows it, if
/// anything, is not.
pub proof fn lemma_leading_whitespace_ends(s: Seq<char>)
    ensures
        leading_whitespace(s) <= s.len(),
        forall|i: int| 0 <= i < leading_whitespace(s) ==> is_whitespace(s[i]),
        leading_whitespace(s) < s.len() ==> !is_whitespace(s[leading_whitespace(s) as int]),
    decreases s.len(),
{
    if s.len() > 0 && is_whitespace(s.first()) {
        let rest = s.drop_first();
        lemma_leading_whitespace_ends(rest);
        assert forall|i: int| 0 <= i < leading_whitespace(s) implies is_whitespace(s[i]) by {
            if i > 0 {
                assert(s[i] == rest[i - 1]);
            }
        }
        if leading_whitespace(s) < s.len() {
            assert(s[leading_whitespace(s) as int] == rest[leading_whitespace(rest) as int]);
        }
    }
}

/// The trailing whitespace of `s` is whitespace, and what stands before it,
/// if anything, is not.
pub proof fn lemma_trailing_whitespace_ends(s: Seq<char>)
    ensures
        trailing_whitespace(s) <= s.len(),
        forall|i: int| s.len() - trailing_whitespace(s) <= i < s.len() ==> is_whitespace(s[i]),
        trailing_whitespace(s) < s.len() ==> !is_whitespace(
            s[s.len() - trailing_whitespace(s) - 1],
        ),
    decreases s.len(),
{
    if s.len() > 0 && is_whitespace(s.last()) {
        let rest = s.drop_last();
        lemma_trailing_whitespace_ends(rest);
        assert forall|i: int|
            s.len() - trailing_whitespace(s) <= i < s.len() implies is_whitespace(s[i]) by {
            if i < s.len() - 1 {
                assert(s[i] == rest[i]);
            }
        }
        if trailing_whitespace(s) < s.len() {
            assert(s[s.len() - trailing_whitespace(s) - 1] == rest[rest.len()
                - trailing_whitespace(rest) - 1]);
        }
    }
}

/// A trimmed text neither starts nor ends with whitespace.
pub proof fn lemma_trimmed_has_no_outer_whitespace(s: Seq<char>)
    requires
        trimmed(s).len() > 0,
    ensures
        !is_whitespace(trimmed(s).first()),
        !is_whitespace(trimmed(s).last()),
{
    lemma_leading_whitespace_ends(s);
    lemma_trailing_whitespace_ends(s);
}

/// Trimming leaves a text that neither starts nor ends with whitespace as it
/// is.
pub proof fn lemma_trimmed_of_clean_text(s: Seq<char>)
    requires
        s.len() > 0,
        !is_whitespace(s.first()),
        !is_whitespace(s.last()),
    ensures
        trimmed(s) == s,
{
    lemma_leading_whitespace(s, 0);
    lemma_trailing_whitespace(s, 0);
    assert(s.subrange(0, s.len() as int) =~= s);
}

/// Trimming twice is trimming once.
pub proof fn lemma_trimmed_is_idempotent(s: Seq<char>)
    ensures
        trimmed(trimmed(s)) == trimmed(s),
{
    let t = trimmed(s);
    if t.len() > 0 {
        lemma_trimmed_has_no_outer_whitespace(s);
        lemma_trimmed_of_clean_text(t);
    }
}

/// Strips the whitespace at both ends of `text`.
pub fn trim(text: &str) -> (stripped: String)
    ensures
        stripped@ == trimmed(text@),
{
    let mut start: usize = 0;
    let mut end: usize = 0;
    let mut seen: usize = 0;
    let total: usize = text.unicode_len();
    for c in it: text.chars()
        invariant
            it.seq() == text@,
            text@.len() == total,
            seen == it.index(),
            start <= seen,
            end <= seen,
            forall|i: int| 0 <= i < start ==> is_whitespace(text@[i]),
            start < seen ==> !is_whitespace(text@[start as int]),
            forall|i: int| end <= i < seen ==> is_whitespace(text@[i]),
            end > 0 ==> !is_whitespace(text@[end - 1]),
            start < seen ==> start < end,
    {
        if char_is_whitespace(c) {
            if start == seen {
                start = start + 1;
            }
        } else {
            end = seen + 1;
        }
        seen = seen + 1;
    }
    proof {
        lemma_leading_whitespace(text@, start as int);
        lemma_trailing_whitespace(text@, text@.len() - end);
    }
    if start >= end {
        String::new()
    } else {
        String::from_str(text.substring_char(start, end))
    }
}

/// The texts of `pages`, in order, with `separator` between neighbours.
pub open spec fn joined(pages: Seq<Seq<char>>, separator: Seq<char>) -> Seq<char>
    decreases pages.len(),
{
    if pages.len() == 0 {
        Seq::empty()
    } else if pages.len() == 1 {
        pages[0]
    } else {
        joined(pages.drop_last(), separator) + separator + pages.last()
    }
}

/// Joins the pages of a document into one text, with a single space between
/// neighbouring pages.
pub fn join_pages(pages: &Vec<String>) -> (text: String)
    ensures
        text@ == joined(pages.deep_view(), seq![' ']),
{
    let mut text = String::new();
    let mut i: usize = 0;
    proof {
        reveal_strlit(" ");
    }
    while i < pages.len()
        invariant
            i <= pages@.len(),
            " "@ == seq![' '],
            text@ == joined(pages.deep_view().take(i as int), seq![' ']),
        decreases pages@.len() - i,
    {
        if i > 0 {
            text.append(" ");
        }
        text.append(pages[i].as_str());
        proof {
            let before = pages.deep_view().take(i as int);
            let now = pages.deep_view().take(i + 1);
            assert(now.drop_last() =~= before);
            assert(now.last() == pages@[i as int]@);
            if i == 0 {
                assert(now[0] == pages@[0]@);
            }
        }
        i = i + 1;
    }
    assert(pages.deep_view().take(i as int) =~= pages.deep_view());
    text
}

} // verus!
