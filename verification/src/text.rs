//! Plain operations on text that the rest of the library builds on.

use vstd::prelude::*;
use vstd::string::StringSliceAdditionalSpecFns;

verus! {

/// Whether two string slices hold the same text.
///
/// Two texts are equal exactly when their UTF-8 encodings are, so the bytes are compared.
pub fn same_text(a: &str, b: &str) -> (r: bool)
    ensures
        r == (a@ == b@),
{
    let x = a.as_bytes();
    let y = b.as_bytes();
    proof {
        vstd::utf8::encode_utf8_decode_utf8(a@);
        vstd::utf8::encode_utf8_decode_utf8(b@);
    }
    if x.len() != y.len() {
        return false;
    }
    let n: usize = x.len();
    let mut i: usize = 0;
    while i < n
        invariant
            i <= n,
            n == x@.len(),
            n == y@.len(),
            x@ == a.spec_bytes(),
            y@ == b.spec_bytes(),
            forall|k: int| 0 <= k < i ==> x@[k] == y@[k],
        decreases n - i,
    {
        if x[i] != y[i] {
            return false;
        }
        i += 1;
    }
    assert(x@ =~= y@);
    true
}

/// The number of bytes that a text takes in UTF-8.
pub open spec fn byte_len(text: Seq<char>) -> nat {
    vstd::utf8::encode_utf8(text).len()
}

/// Every character takes a byte or more, so a text has no more characters than bytes.
pub proof fn characters_take_bytes(text: Seq<char>)
    ensures
        text.len() <= byte_len(text),
    decreases text.len(),
{
    if text.len() > 0 {
        characters_take_bytes(text.drop_first());
    }
}

/// Counts the characters of a text.
pub fn char_count(text: &str) -> (n: usize)
    ensures
        n == text@.len(),
{
    text.unicode_len()
}

/// Whether a character has the Unicode property White_Space: the controls from the tab to
/// the carriage return, the space, the next-line control, the no-break space, and the
/// spaces and separators of the general punctuation and of the ideographic script.
pub open spec fn white_space(c: char) -> bool {
    ||| '\u{9}' <= c <= '\u{d}'
    ||| c == ' '
    ||| c == '\u{85}'
    ||| c == '\u{a0}'
    ||| c == '\u{1680}'
    ||| '\u{2000}' <= c <= '\u{200a}'
    ||| c == '\u{2028}'
    ||| c == '\u{2029}'
    ||| c == '\u{202f}'
    ||| c == '\u{205f}'
    ||| c == '\u{3000}'
}

/// A text without the white space at its start.
pub open spec fn without_leading_space(text: Seq<char>) -> Seq<char>
    decreases text.len(),
{
    if text.len() > 0 && white_space(text[0]) {
        without_leading_space(text.drop_first())
    } else {
        text
    }
}

/// A text without the white space at its end.
pub open spec fn without_trailing_space(text: Seq<char>) -> Seq<char>
    decreases text.len(),
{
    if text.len() > 0 && white_space(text.last()) {
        without_trailing_space(text.drop_last())
    } else {
        text
    }
}

/// A text without the white space at its two ends.
pub open spec fn trimmed(text: Seq<char>) -> Seq<char> {
    without_trailing_space(without_leading_space(text))
}

/// A text is blank when nothing is left of it once the white space at its ends is removed.
pub open spec fn blank(text: Seq<char>) -> bool {
    trimmed(text).len() == 0
}

/// `str::trim` of std. Trusted: the result is the text without the characters at its
/// start and at its end that have the Unicode property White_Space, as [`trimmed`] states
/// it.
#[verifier::external_body]
fn trim(text: &str) -> (r: &str)
    ensures
        r@ == trimmed(text@),
{
    text.trim()
}

/// Whether a text is empty or holds white space only.
pub fn is_blank(text: &str) -> (r: bool)
    ensures
        r == blank(text@),
{
    trim(text).is_empty()
}

/// Nothing is left of a text without its leading white space exactly when the text holds
/// white space only; what is left otherwise starts with another character.
pub proof fn leading_space_is_all_or_ends(text: Seq<char>)
    ensures
        without_leading_space(text).len() == 0 <==> forall|i: int|
            0 <= i < text.len() ==> white_space(#[trigger] text[i]),
        without_leading_space(text).len() > 0 ==> !white_space(without_leading_space(text)[0]),
    decreases text.len(),
{
    if text.len() > 0 && white_space(text[0]) {
        let rest = text.drop_first();
        leading_space_is_all_or_ends(rest);
        if forall|i: int| 0 <= i < rest.len() ==> white_space(#[trigger] rest[i]) {
            assert forall|i: int| 0 <= i < text.len() implies white_space(#[trigger] text[i]) by {
                if i > 0 {
                    assert(text[i] == rest[i - 1]);
                }
            }
        } else {
            let i = choose|i: int| 0 <= i < rest.len() && !white_space(#[trigger] rest[i]);
            assert(text[i + 1] == rest[i]);
        }
    } else if text.len() > 0 {
        assert(!white_space(text[0]));
    }
}

/// A text that starts with a character other than white space keeps that character when
/// its trailing white space is removed.
pub proof fn trailing_space_keeps_the_start(text: Seq<char>)
    requires
        text.len() > 0,
        !white_space(text[0]),
    ensures
        without_trailing_space(text).len() > 0,
    decreases text.len(),
{
    if white_space(text.last()) {
        assert(text.len() > 1);
        trailing_space_keeps_the_start(text.drop_last());
    }
}

/// A text is blank exactly when each of its characters is white space. The empty text is
/// blank, and a text that holds any other character is not.
pub proof fn blank_is_all_white_space(text: Seq<char>)
    ensures
        blank(text) <==> forall|i: int| 0 <= i < text.len() ==> white_space(#[trigger] text[i]),
        text.len() == 0 ==> blank(text),
{
    leading_space_is_all_or_ends(text);
    if without_leading_space(text).len() > 0 {
        trailing_space_keeps_the_start(without_leading_space(text));
    }
}

/// The text of an optional message.
pub open spec fn text_of(message: Option<String>) -> Option<Seq<char>> {
    match message {
        Some(m) => Some(m@),
        None => None,
    }
}

} // verus!
