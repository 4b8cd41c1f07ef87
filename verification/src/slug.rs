//! Turning any text into the text of an identifier.

use vstd::prelude::*;

verus! {

/// Whether `c` is one of the ten ASCII digits.
pub open spec fn is_ascii_digit(c: char) -> bool {
    '0' <= c <= '9'
}

/// Whether `c` may stand in an identifier: an ASCII letter, an ASCII digit
/// or the underscore.
pub open spec fn is_identifier_char(c: char) -> bool {
    ||| 'a' <= c <= 'z'
    ||| 'A' <= c <= 'Z'
    ||| '0' <= c <= '9'
    ||| c == '_'
}

/// What becomes of one character: the underscore for a digit in the first
/// place and for whatever may not stand in an identifier, else the
/// character itself.
pub open spec fn slug_char(c: char, first: bool) -> char {
    if (first && is_ascii_digit(c)) || !is_identifier_char(c) {
        '_'
    } else {
        c
    }
}

/// The identifier text made of `text`, character by character. Only the
/// first character is asked whether it is a digit.
pub open spec fn slug(text: Seq<char>) -> Seq<char> {
    Seq::new(text.len(), |i: int| slug_char(text[i], i == 0))
}

/// Whether `c` is one of the ten ASCII digits.
pub fn char_is_ascii_digit(c: char) -> (digit: bool)
    ensures
        digit == is_ascii_digit(c),
{
    '0' <= c && c <= '9'
}

/// Whether `c` may stand in an identifier.
pub fn char_is_identifier_char(c: char) -> (fits: bool)
    ensures
        fits == is_identifier_char(c),
{
    ('a' <= c && c <= 'z') || ('A' <= c && c <= 'Z') || ('0' <= c && c <= '9') || c == '_'
}

/// Makes an identifier's text of `input`: every character that is no ASCII
/// letter, digit or underscore becomes an underscore, and so does a digit
/// in the first place.
pub fn helper_slugify_ident(input: &str) -> (ident: String)
    ensures
        ident@ == slug(input@),
{
    let mut ident = String::new();
    let mut is_first_char = true;
    assert(slug(input@).take(0) == Seq::<char>::empty());
    for c in it: input.chars()
        invariant
            it.seq() == input@,
            is_first_char == (it.index() == 0),
            ident@ == slug(input@).take(it.index() as int),
    {
        assert(slug(input@).take(it.index() + 1) == slug(input@).take(it.index() as int).push(
            slug(input@)[it.index() as int],
        ));
        if (is_first_char && char_is_ascii_digit(c)) || !char_is_identifier_char(c) {
            ident.push('_');
        } else {
            ident.push(c);
        }
        is_first_char = false;
    }
    assert(slug(input@).take(input@.len() as int) == slug(input@));
    ident
}

/// The identifier text made of any text holds only ASCII letters, ASCII
/// digits and underscores, is as long as the text, and does not begin with
/// a digit. A character that already fits stays as it is, but for a digit
/// in the first place.
pub proof fn lemma_slug_is_identifier_text(text: Seq<char>)
    ensures
        slug(text).len() == text.len(),
        forall|i: int| 0 <= i < text.len() ==> is_identifier_char(#[trigger] slug(text)[i]),
        text.len() > 0 ==> !is_ascii_digit(slug(text)[0]),
        forall|i: int|
            0 <= i < text.len() && is_identifier_char(text[i]) && !(i == 0 && is_ascii_digit(
                text[i],
            )) ==> (#[trigger] slug(text)[i]) == text[i],
{
}

/// A text that is an identifier's text already stays as it is.
pub proof fn lemma_slug_keeps_identifier_text(text: Seq<char>)
    requires
        forall|i: int| 0 <= i < text.len() ==> is_identifier_char(#[trigger] text[i]),
        text.len() > 0 ==> !is_ascii_digit(text[0]),
    ensures
        slug(text) == text,
{
    assert(slug(text) =~= text);
}

} // verus!
