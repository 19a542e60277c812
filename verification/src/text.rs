//! Text helpers: comparing, validating and trimming the text of one line.

use vstd::prelude::*;
use vstd::string::StringSliceAdditionalSpecFns;
use vstd::utf8::{decode_utf8, encode_utf8, valid_utf8};

verus! {

/// Tells whether two string slices hold the same characters.
pub fn text_eq(a: &str, b: &str) -> (same: bool)
    ensures
        same == (a@ == b@),
{
    let x = a.as_bytes();
    let y = b.as_bytes();
    proof {
        vstd::utf8::encode_utf8_decode_utf8(a@);
        vstd::utf8::encode_utf8_decode_utf8(b@);
    }
    if x.len() != y.len() {
        return false;
    }
    let mut i: usize = 0;
    while i < x.len()
        invariant
            i <= x.len(),
            x.len() == y.len(),
            forall|j: int| 0 <= j < i ==> x@[j] == y@[j],
            x@ == encode_utf8(a@),
            y@ == encode_utf8(b@),
            decode_utf8(encode_utf8(a@)) == a@,
            decode_utf8(encode_utf8(b@)) == b@,
        decreases x.len() - i,
    {
        if x[i] != y[i] {
            return false;
        }
        i += 1;
    }
    assert(x@ =~= y@);
    true
}

/// Whether a character has the Unicode property `White_Space`, which is
/// what `char::is_whitespace` answers and what `str::trim` strips.
pub uninterp spec fn white_space(c: char) -> bool;

/// Whitespace at the ends of a line. The blank, the tab and the two line
/// terminators all have the property; they are named so that a line's
/// terminator is known to count, whichever it is.
pub open spec fn is_space(c: char) -> bool {
    c == ' ' || c == '\t' || c == '\n' || c == '\r' || white_space(c)
}

/// A text without its leading whitespace.
pub open spec fn trim_start(text: Seq<char>) -> Seq<char>
    decreases text.len(),
{
    if text.len() > 0 && is_space(text.first()) {
        trim_start(text.drop_first())
    } else {
        text
    }
}

/// A text without its trailing whitespace.
pub open spec fn trim_end(text: Seq<char>) -> Seq<char>
    decreases text.len(),
{
    if text.len() > 0 && is_space(text.last()) {
        trim_end(text.drop_last())
    } else {
        text
    }
}

/// A text without the whitespace at either end.
pub open spec fn trimmed(text: Seq<char>) -> Seq<char> {
    trim_end(trim_start(text))
}

/// Stripping trailing whitespace forgets a whitespace character at the end.
proof fn lemma_trim_end_push(text: Seq<char>, c: char)
    requires
        is_space(c),
    ensures
        trim_end(text.push(c)) == trim_end(text),
{
    assert(text.push(c).drop_last() =~= text);
}

/// Stripping leading whitespace keeps a whitespace character at the end,
/// unless the text before it is whitespace throughout.
proof fn lemma_trim_start_push(text: Seq<char>, c: char)
    requires
        is_space(c),
    ensures
        trim_start(text.push(c)) == if trim_start(text).len() == 0 {
            Seq::<char>::empty()
        } else {
            trim_start(text).push(c)
        },
    decreases text.len(),
{
    if text.len() == 0 {
        assert(text.push(c).drop_first() =~= text);
    } else {
        if is_space(text.first()) {
            assert(text.push(c).drop_first() =~= text.drop_first().push(c));
            lemma_trim_start_push(text.drop_first(), c);
        }
    }
}

/// Whitespace at the end of a text does not show in the trimmed text.
pub proof fn lemma_trailing_space_is_trimmed(text: Seq<char>, c: char)
    requires
        is_space(c),
    ensures
        trimmed(text.push(c)) == trimmed(text),
{
    lemma_trim_start_push(text, c);
    if trim_start(text).len() > 0 {
        lemma_trim_end_push(trim_start(text), c);
    }
}

/// Whitespace at the start of a text does not show in the trimmed text.
pub proof fn lemma_leading_space_is_trimmed(text: Seq<char>, c: char)
    requires
        is_space(c),
    ensures
        trimmed(seq![c] + text) == trimmed(text),
{
    assert((seq![c] + text).drop_first() =~= text);
}

/// Stripping leading whitespace leaves a text that starts with none.
proof fn lemma_trim_start_is_done(text: Seq<char>)
    ensures
        trim_start(text).len() > 0 ==> !is_space(trim_start(text).first()),
    decreases text.len(),
{
    if text.len() > 0 && is_space(text.first()) {
        lemma_trim_start_is_done(text.drop_first());
    }
}

/// Stripping trailing whitespace leaves a text that ends with none, and
/// leaves the start of the text alone.
proof fn lemma_trim_end_is_done(text: Seq<char>)
    ensures
        trim_end(text).len() > 0 ==> !is_space(trim_end(text).last()) && trim_end(text).first()
            == text.first(),
    decreases text.len(),
{
    if text.len() > 0 && is_space(text.last()) {
        lemma_trim_end_is_done(text.drop_last());
    }
}

/// A trimmed text neither starts nor ends with whitespace.
pub proof fn lemma_trimmed_ends_are_no_space(text: Seq<char>)
    ensures
        trimmed(text).len() > 0 ==> !is_space(trimmed(text).first()) && !is_space(
            trimmed(text).last(),
        ),
{
    lemma_trim_start_is_done(text);
    lemma_trim_end_is_done(trim_start(text));
}

/// One byte of ASCII at the end of a byte string decides nothing about the
/// bytes before it: the whole is UTF-8 exactly if they are, and decodes to
/// their text with that character behind it.
pub proof fn lemma_ascii_at_the_end(bytes: Seq<u8>, last: u8)
    requires
        last <= 0x7f,
    ensures
        valid_utf8(bytes.push(last)) == valid_utf8(bytes),
        valid_utf8(bytes) ==> decode_utf8(bytes.push(last)) == decode_utf8(bytes).push(
            last as char,
        ),
{
    let whole = bytes.push(last);
    let tail = seq![last];
    let at = bytes.len() as int;
    assert(whole =~= bytes + tail);
    assert(whole.subrange(0, at) =~= bytes);
    assert(whole.subrange(at, whole.len() as int) =~= tail);
    assert(valid_utf8(tail)) by {
        reveal_with_fuel(valid_utf8, 2);
    }
    assert(decode_utf8(tail) =~= seq![last as char]) by {
        assert(last & 0x7f == last) by (bit_vector)
            requires
                last <= 0x7f,
        ;
        reveal_with_fuel(decode_utf8, 2);
    }
    if valid_utf8(bytes) {
        vstd::utf8::valid_utf8_concat(bytes, tail);
    }
    if valid_utf8(whole) {
        vstd::utf8::is_char_boundary_iff_is_leading_byte(whole, at);
        vstd::utf8::valid_utf8_split(whole, at);
        vstd::utf8::decode_utf8_split(whole, at);
    }
}

/// Strips the whitespace at both ends of a text with `str::trim`.
///
/// Trusted: the slice that `str::trim` returns is the text without its
/// leading and trailing whitespace, so that neither end of it is whitespace.
#[verifier::external_body]
pub(crate) fn trim(text: &str) -> (inner: &str)
    ensures
        inner@ == trimmed(text@),
        inner@.len() > 0 ==> !white_space(inner@.first()) && !white_space(inner@.last()),
{
    text.trim()
}

/// Reads bytes as UTF-8 text with `std::str::from_utf8`.
///
/// Trusted: the call succeeds on exactly the byte strings that are valid
/// UTF-8, and the text it returns is those bytes decoded.
#[verifier::external_body]
pub(crate) fn utf8_text(bytes: &[u8]) -> (text: Option<&str>)
    ensures
        text is Some == valid_utf8(bytes@),
        text matches Some(t) ==> t@ == decode_utf8(bytes@),
{
    std::str::from_utf8(bytes).ok()
}

} // verus!
