use vstd::prelude::*;

verus! {

/// Relies on `String::push`: appends one character at the end.
#[verifier::external_body]
pub(crate) fn push_char(s: &mut String, c: char)
    ensures
        final(s)@ == old(s)@.push(c),
{
    s.push(c);
}

/// Copies a string slice into an owned string.
pub(crate) fn owned(s: &str) -> (r: String)
    ensures
        r@ == s@,
{
    s.to_owned()
}

/// Appends every character of `chars`, in order.
pub(crate) fn push_all(out: &mut String, chars: &[char])
    ensures
        final(out)@ == old(out)@ + chars@,
{
    let ghost s = chars@;
    let mut i: usize = 0;
    while i < chars.len()
        invariant
            chars@ == s,
            i <= s.len(),
            out@ == old(out)@ + s.subrange(0, i as int),
        decreases s.len() - i,
    {
        push_char(out, chars[i]);
        assert(s.subrange(0, i as int + 1) =~= s.subrange(0, i as int).push(chars@[i as int]));
        i = i + 1;
    }
    assert(s.subrange(0, s.len() as int) =~= s);
}

} // verus!
