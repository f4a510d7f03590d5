use vstd::prelude::*;

verus! {

/// `String::push`: std documents that it appends the character to the end
/// of the string.
#[verifier::external_body]
pub(crate) fn push_char(s: &mut String, c: char)
    ensures
        final(s)@ == old(s)@.push(c),
{
    s.push(c)
}

/// `String::pop`: std documents that it removes the last character and
/// returns it, or returns `None` and leaves the string as it is when the
/// string is empty.
#[verifier::external_body]
pub(crate) fn pop_char(s: &mut String) -> (popped: Option<char>)
    ensures
        old(s)@.len() == 0 ==> popped is None && final(s)@ == old(s)@,
        old(s)@.len() > 0 ==> popped == Some(old(s)@.last()) && final(s)@ == old(s)@.drop_last(),
{
    s.pop()
}

/// `String::push_str`: std documents that it appends the given string
/// slice to the end of the string.
#[verifier::external_body]
pub(crate) fn push_str(s: &mut String, tail: &str)
    ensures
        final(s)@ == old(s)@ + tail@,
{
    s.push_str(tail)
}

/// Whether a string holds exactly the text of a string slice.
pub(crate) fn text_is(a: &String, b: &str) -> (same: bool)
    ensures
        same == (a@ == b@),
{
    let owned = b.to_owned();
    *a == owned
}

/// Whether two strings hold the same text.
pub(crate) fn text_is_text(a: &String, b: &String) -> (same: bool)
    ensures
        same == (a@ == b@),
{
    *a == *b
}

} // verus!
