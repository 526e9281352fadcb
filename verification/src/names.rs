//! Case-insensitive matching of hardfork names.
//!
//! Hardfork names are ASCII; a free-form string names a hardfork when it
//! matches the name with ASCII letter case ignored.

use vstd::prelude::*;
use vstd::string::StrSliceExecFns;

verus! {

/// True when `c` is an ASCII upper-case letter.
pub open spec fn spec_is_ascii_upper(c: char) -> bool {
    'A' <= c && c <= 'Z'
}

/// True when two characters are equal up to ASCII letter case.
pub open spec fn spec_char_eq_ci(a: char, b: char) -> bool {
    a == b || (spec_is_ascii_upper(a) && a as u32 + 32 == b as u32) || (spec_is_ascii_upper(b)
        && b as u32 + 32 == a as u32)
}

/// True when two strings are equal up to ASCII letter case, character by
/// character.
pub open spec fn spec_str_eq_ci(a: Seq<char>, b: Seq<char>) -> bool {
    a.len() == b.len() && forall|i: int| 0 <= i < a.len() ==> spec_char_eq_ci(a[i], b[i])
}

/// Returns whether `s` equals `name` up to ASCII letter case.
pub fn eq_name_ci(s: &str, name: &str) -> (r: bool)
    ensures
        r == spec_str_eq_ci(s@, name@),
{
    let s_len = s.unicode_len();
    let n_len = name.unicode_len();
    if s_len != n_len {
        return false;
    }
    let mut i: usize = 0;
    while i < s_len
        invariant
            i <= s_len,
            s_len as int == s@.len(),
            s_len as int == name@.len(),
            forall|j: int| 0 <= j < i ==> spec_char_eq_ci(s@[j], name@[j]),
        decreases s_len - i,
    {
        let a = s.get_char(i);
        let b = name.get_char(i);
        let eq = a == b || (('A' <= a && a <= 'Z') && a as u32 + 32 == b as u32) || (('A' <= b
            && b <= 'Z') && b as u32 + 32 == a as u32);
        if !eq {
            return false;
        }
        i += 1;
    }
    true
}

} // verus!
