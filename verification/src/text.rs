use vstd::prelude::*;

verus! {

/// Appends the character `c` to `s`.
///
/// Trusted: the body is `String::push` of the standard library, which is
/// documented to append the given `char` to the end of the string. The
/// contract says that and nothing else.
#[verifier::external_body]
pub(crate) fn push_char(s: &mut String, c: char)
    ensures
        final(s)@ == old(s)@.push(c),
{
    s.push(c);
}

} // verus!
