use vstd::prelude::*;

verus! {

/// Relies on `String::push`: the character is appended at the end.
#[verifier::external_body]
pub(crate) fn push_char(s: &mut String, c: char)
    ensures
        final(s)@ == old(s)@.push(c),
{
    s.push(c)
}

/// Number of characters in `s`.
pub fn char_count(s: &String) -> (r: usize)
    ensures
        r == s@.len(),
{
    s.as_str().unicode_len()
}

/// The first `n` characters of `s` (all of them when `s` is shorter).
pub fn take_chars(s: &String, n: usize) -> (r: String)
    ensures
        r@ == s@.take(if n <= s@.len() { n as int } else { s@.len() as int }),
{
    let len = char_count(s);
    let stop = if n <= len { n } else { len };
    let mut out = String::new();
    let mut i: usize = 0;
    while i < stop
        invariant
            stop <= len,
            len == s@.len(),
            i <= stop,
            out@ == s@.take(i as int),
        decreases stop - i,
    {
        let c = s.as_str().get_char(i);
        push_char(&mut out, c);
        assert(out@ =~= s@.take(i + 1));
        i = i + 1;
    }
    out
}

} // verus!
