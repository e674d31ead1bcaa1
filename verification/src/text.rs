use vstd::prelude::*;
use vstd::string::*;

verus! {

/// The characters of a string, one by one.
pub fn chars_of(text: &str) -> (chars: Vec<char>)
    ensures
        chars@ == text@,
{
    let mut chars: Vec<char> = Vec::new();
    for c in it: text.chars()
        invariant
            chars@ == it.seq().take(it.index@),
    {
        chars.push(c);
    }
    chars
}

} // verus!
