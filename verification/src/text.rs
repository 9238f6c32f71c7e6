//! Text transformations used by the pages and the server: ASCII shouting and
//! the Unicode case mappings of the answer box.
use vstd::prelude::*;

verus! {

/// `c` with an ASCII lowercase letter replaced by its uppercase form; every
/// other character, ASCII or not, is left alone.
pub open spec fn ascii_upper_char(c: char) -> char {
    if 'a' <= c && c <= 'z' {
        ((c as u32) - 32) as char
    } else {
        c
    }
}

/// Every character of `s` put through [`ascii_upper_char`].
pub open spec fn ascii_upper(s: Seq<char>) -> Seq<char> {
    s.map_values(|c: char| ascii_upper_char(c))
}

/// The Unicode uppercase mapping of a string, as `str::to_uppercase` computes it.
pub uninterp spec fn unicode_uppercase(s: Seq<char>) -> Seq<char>;

/// The Unicode lowercase mapping of a string, as `str::to_lowercase` computes it.
pub uninterp spec fn unicode_lowercase(s: Seq<char>) -> Seq<char>;

/// Calls `String::push`: appends one character.
#[verifier::external_body]
fn push_char(s: &mut String, c: char)
    ensures
        final(s)@ == old(s)@.push(c),
{
    s.push(c);
}

/// Calls `str::to_uppercase`. Its result is a function of the text alone
/// (the Unicode tables that std carries); nothing more of it is stated.
#[verifier::external_body]
fn to_uppercase(s: &str) -> (r: String)
    ensures
        r@ == unicode_uppercase(s@),
{
    s.to_uppercase()
}

/// Calls `str::to_lowercase`. Its result is a function of the text alone
/// (the Unicode tables that std carries); nothing more of it is stated.
#[verifier::external_body]
fn to_lowercase(s: &str) -> (r: String)
    ensures
        r@ == unicode_lowercase(s@),
{
    s.to_lowercase()
}

/// The ASCII uppercase of one character.
pub fn ascii_upper_of(c: char) -> (u: char)
    ensures
        u == ascii_upper_char(c),
        'a' <= c && c <= 'z' ==> u as u32 == c as u32 - 32,
        !('a' <= c && c <= 'z') ==> u == c,
{
    if 'a' <= c && c <= 'z' {
        let code: u32 = (c as u32) - 32;
        code as u8 as char
    } else {
        c
    }
}

/// What the server answers to a shout request: the input with its ASCII
/// letters in uppercase and everything else unchanged.
pub fn shouting_text(input: &str) -> (shout: String)
    ensures
        shout@ == ascii_upper(input@),
        shout@.len() == input@.len(),
        forall|i: int|
            0 <= i < input@.len() ==> if 'a' <= input@[i] && input@[i] <= 'z' {
                #[trigger] shout@[i] as u32 == input@[i] as u32 - 32
            } else {
                shout@[i] == input@[i]
            },
{
    let mut shout = String::new();
    for c in it: input.chars()
        invariant
            it.seq() == input@,
            shout@ == ascii_upper(input@.take(it.index() as int)),
    {
        proof {
            assert(input@.take(it.index() + 1) == input@.take(it.index() as int).push(c));
        }
        push_char(&mut shout, ascii_upper_of(c));
        proof {
            assert(ascii_upper(input@.take(it.index() + 1)) =~= ascii_upper(
                input@.take(it.index() as int),
            ).push(ascii_upper_char(c)));
        }
    }
    proof {
        assert(input@.take(input@.len() as int) =~= input@);
    }
    shout
}

/// What the answer box shows for the typed text: its Unicode uppercase.
pub fn sized_input_value(typed: &str) -> (shown: String)
    ensures
        shown@ == unicode_uppercase(typed@),
{
    to_uppercase(typed)
}

/// The answer text that the study page keeps for the typed text: its Unicode
/// lowercase.
pub fn answer_value(typed: &str) -> (kept: String)
    ensures
        kept@ == unicode_lowercase(typed@),
{
    to_lowercase(typed)
}

/// Shouting turns every ASCII lowercase letter into its uppercase letter (the
/// code point 32 below), keeps every other character, and leaves no ASCII
/// lowercase letter behind.
pub proof fn lemma_shouting_uppercases_every_letter(s: Seq<char>)
    ensures
        ascii_upper(s).len() == s.len(),
        forall|i: int|
            0 <= i < s.len() && 'a' <= s[i] && s[i] <= 'z' ==> #[trigger] ascii_upper(s)[i] as u32
                == s[i] as u32 - 32,
        forall|i: int|
            0 <= i < s.len() ==> !('a' <= #[trigger] ascii_upper(s)[i] && ascii_upper(s)[i] <= 'z'),
{
    assert forall|i: int| 0 <= i < s.len() && 'a' <= s[i] && s[i] <= 'z' implies #[trigger] ascii_upper(s)[i] as u32
        == s[i] as u32 - 32 by {
        lemma_upper_char(s[i]);
    }
    assert forall|i: int| 0 <= i < s.len() implies !('a' <= #[trigger] ascii_upper(s)[i] && ascii_upper(s)[i] <= 'z') by {
        lemma_upper_char(s[i]);
    }
}

/// The uppercase of one ASCII lowercase letter is the letter 32 code points
/// below it, which is no longer a lowercase letter.
proof fn lemma_upper_char(c: char)
    ensures
        'a' <= c && c <= 'z' ==> ascii_upper_char(c) as u32 == c as u32 - 32,
        !('a' <= ascii_upper_char(c) && ascii_upper_char(c) <= 'z'),
{
}

/// Shouting twice is shouting once.
pub proof fn lemma_shouting_is_idempotent(s: Seq<char>)
    ensures
        ascii_upper(ascii_upper(s)) == ascii_upper(s),
{
    assert(ascii_upper(ascii_upper(s)) =~= ascii_upper(s));
}

/// Shouting keeps the number of characters, and leaves every character that
/// is not an ASCII lowercase letter where it was.
pub proof fn lemma_shouting_keeps_shape(s: Seq<char>)
    ensures
        ascii_upper(s).len() == s.len(),
        forall|i: int|
            0 <= i < s.len() && !('a' <= s[i] && s[i] <= 'z') ==> #[trigger] ascii_upper(s)[i]
                == s[i],
{
}

} // verus!
