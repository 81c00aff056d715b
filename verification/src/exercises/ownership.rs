//! Strings that are read, changed in place, consumed and replaced.

use vstd::prelude::*;
use vstd::string::StringExecFns;
use crate::text::chars_of;

verus! {

/// Whether the text ends in the letter `s`.
pub open spec fn plural(s: Seq<char>) -> bool {
    s.len() > 0 && s.last() == 's'
}

/// Whether the text starts with `b` and has an `a` somewhere.
pub open spec fn edible(s: Seq<char>) -> bool {
    s.len() > 0 && s[0] == 'b' && s.contains('a')
}

/// Whether the text ends in the letter `s`.
pub fn is_plural(s: &str) -> (b: bool)
    ensures
        b == plural(s@),
{
    let chars = chars_of(s);
    chars.len() > 0 && chars[chars.len() - 1] == 's'
}

/// What there is to say of the number of `s`: the text itself, followed by
/// ` is plural` where it ends in `s` and by ` is singular` where it does not.
pub fn inspect(s: &String) -> (line: String)
    ensures
        line@ == s@ + (if plural(s@) {
            " is plural"@
        } else {
            " is singular"@
        }),
{
    if is_plural(s.as_str()) {
        s.clone().concat(" is plural")
    } else {
        s.clone().concat(" is singular")
    }
}

/// Makes the text plural: appends an `s` unless it ends in one.
pub fn change(s: &mut String)
    ensures
        final(s)@ == (if plural(old(s)@) {
            old(s)@
        } else {
            old(s)@.push('s')
        }),
{
    if !is_plural(s.as_str()) {
        proof {
            reveal_strlit("s");
            assert("s"@ =~= seq!['s']);
        }
        s.append("s");
        assert(s@ =~= old(s)@.push('s'));
    }
}

/// Whether the text starts with `b` and has an `a` somewhere.
pub fn eat(s: String) -> (b: bool)
    ensures
        b == edible(s@),
{
    let chars = chars_of(s.as_str());
    if chars.len() == 0 || chars[0] != 'b' {
        return false;
    }
    let mut i: usize = 0;
    while i < chars.len()
        invariant
            i <= chars.len(),
            chars@ == s@,
            s@.len() > 0 && s@[0] == 'b',
            forall|j: int| 0 <= j < i ==> s@[j] != 'a',
        decreases chars.len() - i,
    {
        if chars[i] == 'a' {
            assert(s@[i as int] == 'a');
            return true;
        }
        i += 1;
    }
    false
}

/// Replaces the material, whatever it was, by `sparkly`.
pub fn bedazzle(material: &mut String)
    ensures
        final(material)@ == "sparkly"@,
{
    *material = String::from_str("sparkly");
}

} // verus!
