use vstd::prelude::*;

verus! {

/// Relies on `String::push`: appends the given character to the end of the
/// string, leaving the earlier characters in place.
#[verifier::external_body]
pub(crate) fn push_char(s: &mut String, c: char)
    ensures
        final(s)@ == old(s)@ + seq![c],
{
    s.push(c);
}

/// Splitting a concatenation at the seam gives back its two parts.
pub(crate) proof fn lemma_concat_splits(a: Seq<char>, b: Seq<char>)
    ensures
        (a + b).len() == a.len() + b.len(),
        (a + b).subrange(0, a.len() as int) == a,
        (a + b).subrange(a.len() as int, (a + b).len() as int) == b,
{
    assert((a + b).subrange(0, a.len() as int) =~= a);
    assert((a + b).subrange(a.len() as int, (a + b).len() as int) =~= b);
}

} // verus!
