//! The name transform: from a variant's `UpperCamelCase` name to the
//! `snake_case` name of the handler method it is routed to.

use vstd::prelude::*;
use vstd::string::*;

verus! {

/// The Unicode property `Uppercase` of a character beyond ASCII, as the
/// tables of std have it.
pub uninterp spec fn unicode_uppercase(c: char) -> bool;

/// Whether a character counts as uppercase: among the ASCII characters the
/// letters `A` to `Z`, beyond ASCII those with the Unicode property
/// `Uppercase`.
pub open spec fn uppercase(c: char) -> bool {
    ('A' <= c && c <= 'Z') || (c > '\x7f' && unicode_uppercase(c))
}

/// The ASCII lower case of a character: `A` to `Z` become `a` to `z`, every
/// other character stays as it is.
pub open spec fn ascii_lowercase(c: char) -> char {
    if 'A' <= c && c <= 'Z' {
        ((c as u32) + 32) as char
    } else {
        c
    }
}

/// The lower case of a character beyond ASCII, as the tables of std have it:
/// one character or more.
pub uninterp spec fn unicode_lowercase(c: char) -> Seq<char>;

/// The lower case of a character: for an ASCII character its ASCII lower
/// case, beyond ASCII what Unicode maps the character to. A character
/// without a lower case of its own stays as it is.
pub open spec fn lower_case(c: char) -> Seq<char> {
    if c <= '\x7f' {
        seq![ascii_lowercase(c)]
    } else {
        unicode_lowercase(c)
    }
}

/// `char::is_uppercase` of std. Trusted: the result is `uppercase` of the
/// character, which says that of the ASCII characters exactly `A` to `Z` are
/// uppercase and leaves the rest to the Unicode property `Uppercase`.
pub assume_specification[ char::is_uppercase ](c: char) -> (b: bool)
    ensures
        b == uppercase(c),
        c > '\x7f' ==> b == unicode_uppercase(c),
;

/// `char::to_ascii_lowercase` of std. Trusted: `A` to `Z` are mapped to `a`
/// to `z`, and every other character is returned unchanged.
pub assume_specification[ char::to_ascii_lowercase ](c: &char) -> (r: char)
    ensures
        r == ascii_lowercase(*c),
;

/// `char::to_lowercase` of std, with the characters it yields gathered in
/// a text. Trusted: the text is the lower case that the character has in
/// the tables of std.
#[verifier::external_body]
fn to_unicode_lowercase(c: char) -> (lower: String)
    ensures
        lower@ == unicode_lowercase(c),
{
    c.to_lowercase().collect()
}

/// `String::push` of std. Trusted: the character is appended at the end.
pub assume_specification[ String::push ](s: &mut String, ch: char)
    ensures
        final(s)@ == old(s)@.push(ch),
;

/// The separator that the character at position `i` of a name brings with
/// it: one where the character is uppercase and not the first of the name.
pub open spec fn separator_before(i: int, c: char) -> Seq<char> {
    if i != 0 && uppercase(c) {
        seq!['_']
    } else {
        Seq::empty()
    }
}

/// What the character at position `i` of a name contributes to its snake
/// case form: the separator, where one is due, and the character's lower
/// case.
pub open spec fn snake_piece(i: int, c: char) -> Seq<char> {
    separator_before(i, c) + lower_case(c)
}

/// The snake case form of a name: the pieces of its characters, in order.
pub open spec fn snake_case(name: Seq<char>) -> Seq<char>
    decreases name.len(),
{
    if name.len() == 0 {
        Seq::empty()
    } else {
        snake_case(name.drop_last()) + snake_piece(name.len() - 1, name.last())
    }
}

/// Converts a `CamelCase` name to `snake_case`.
///
/// A separator is inserted before every uppercase character that is not the
/// first character of the name, and every character is put in lower case.
/// Runs of capitals are not grouped: each capital gets its own separator, so
/// `HTTPServer` becomes `h_t_t_p_server`.
pub fn to_snake_case(input: &str) -> (out: String)
    ensures
        out@ == snake_case(input@),
{
    let mut s = String::new();
    let mut first = true;
    for ch in it: input.chars()
        invariant
            it.seq() == input@,
            first == (it.index() == 0),
            s@ == snake_case(input@.take(it.index() as int)),
    {
        let ghost n = it.index() as int;
        let ghost before = s@;
        assert(input@.take(n + 1).drop_last() =~= input@.take(n));
        if ch.is_uppercase() && !first {
            s.push('_');
        }
        assert(s@ =~= before + separator_before(n, ch));
        if ch <= '\x7f' {
            s.push(ch.to_ascii_lowercase());
        } else {
            let lower = to_unicode_lowercase(ch);
            s.append(lower.as_str());
        }
        assert(s@ =~= before + snake_piece(n, ch));
        first = false;
    }
    assert(input@.take(input@.len() as int) =~= input@);
    s
}

} // verus!
