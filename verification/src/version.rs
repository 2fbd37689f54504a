//! Version-requirement normalization.
//!
//! A bare numeric version such as `1.2.3` is rewritten as the
//! compatible-range requirement `^1.2.3`; any string that does not start
//! with an ASCII digit (an explicit operator, a wildcard, or the empty
//! string) is passed through unchanged.

use vstd::prelude::*;

verus! {

/// True when `c` is one of the ASCII digits `0` through `9`.
pub open spec fn is_ascii_digit_char(c: char) -> bool {
    48 <= (c as u32) && (c as u32) <= 57
}

/// The normalized form of a version-requirement string: a leading caret
/// is added when the string starts with an ASCII digit, and the string
/// is kept as it is otherwise.
pub open spec fn fixed_version(v: Seq<char>) -> Seq<char> {
    if v.len() > 0 && is_ascii_digit_char(v[0]) {
        seq!['^'] + v
    } else {
        v
    }
}

/// Rewrites a bare numeric version as a caret requirement and passes
/// every other version string through unchanged.
pub fn fix_version(v: &str) -> (r: String)
    ensures
        r@ == fixed_version(v@),
{
    let len = v.unicode_len();
    if len > 0 {
        let c = v.get_char(0);
        let u = c as u32;
        if 48 <= u && u <= 57 {
            let mut r = String::from_str("^");
            proof {
                reveal_strlit("^");
                assert(r@ =~= seq!['^']);
            }
            r.append(v);
            proof {
                assert(r@ =~= fixed_version(v@));
            }
            return r;
        }
    }
    String::from_str(v)
}

} // verus!
