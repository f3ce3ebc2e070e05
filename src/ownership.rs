use vstd::prelude::*;
use vstd::utf8::{encode_utf8, is_ascii_chars, is_ascii_chars_encode_utf8};

verus! {

/// The characters of the string that `gives_ownership` produces.
pub open spec fn yours() -> Seq<char> {
    seq!['y', 'o', 'u', 'r', 's']
}

/// The characters that `change` appends.
pub open spec fn suffix() -> Seq<char> {
    seq![',', ' ', 'w', 'o', 'r', 'l', 'd']
}

/// The length in bytes of the UTF-8 encoding of `s`.
pub open spec fn byte_len(s: Seq<char>) -> nat {
    encode_utf8(s).len()
}

/// An ASCII string has as many bytes as characters.
pub proof fn lemma_ascii_byte_len(s: Seq<char>)
    requires
        is_ascii_chars(s),
    ensures
        byte_len(s) == s.len(),
{
    is_ascii_chars_encode_utf8(s);
}

/// Relies on String::len: the number of bytes in the string's UTF-8 encoding.
#[verifier::external_body]
fn string_len(s: &String) -> (r: usize)
    ensures
        r as nat == byte_len(s@),
{
    s.len()
}

/// Creates a new string, `"yours"`, and moves it out to the caller.
pub fn gives_ownership() -> (r: String)
    ensures
        r@ == yours(),
{
    let some_string = String::from_str("yours");
    proof {
        reveal_strlit("yours");
    }
    assert(some_string@ =~= yours());
    some_string
}

/// Takes a string by value and moves it back out unchanged.
pub fn takes_and_gives_back(a_string: String) -> (r: String)
    ensures
        r@ == a_string@,
{
    a_string
}

/// Takes a string by value and returns it together with its length in bytes.
pub fn calculate_length(s: String) -> (r: (String, usize))
    ensures
        r.0@ == s@,
        r.1 == byte_len(s@),
        is_ascii_chars(s@) ==> r.1 == s@.len(),
{
    let length = string_len(&s);
    proof {
        if is_ascii_chars(s@) {
            lemma_ascii_byte_len(s@);
        }
    }
    (s, length)
}

/// Returns the length in bytes of a borrowed string, leaving it to the caller.
pub fn calculate_length_ref(s: &String) -> (r: usize)
    ensures
        r == byte_len(s@),
        is_ascii_chars(s@) ==> r == s@.len(),
{
    let length = string_len(s);
    proof {
        if is_ascii_chars(s@) {
            lemma_ascii_byte_len(s@);
        }
    }
    length
}

/// Appends `", world"` to a mutably borrowed string.
pub fn change(some_string: &mut String)
    ensures
        final(some_string)@ == old(some_string)@ + suffix(),
{
    some_string.append(", world");
    proof {
        reveal_strlit(", world");
    }
    assert(final(some_string)@ =~= old(some_string)@ + suffix());
}

} // verus!
