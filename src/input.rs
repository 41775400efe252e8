//! The modifier prefixes of key identifiers in keybindings.
//!
//! A key identifier is written `[S-][C-][A-][L-]<keycode>`, for Shift, Ctrl,
//! Alt and Logo, in that order.

use vstd::prelude::*;

use crate::util::str_eq;

verus! {

/// The modifiers held with a key.
#[derive(Clone, Copy, PartialEq, Eq, Structural, Debug)]
pub struct Modifiers {
    pub shift: bool,
    pub ctrl: bool,
    pub alt: bool,
    pub logo: bool,
}

/// Whether `s` starts with `modifier` and a `-`; and what is left after them.
pub open spec fn strip_spec(s: Seq<char>, modifier: Seq<char>) -> (bool, Seq<char>) {
    let prefix = modifier.push('-');
    if prefix.len() <= s.len() && s.subrange(0, prefix.len() as int) == prefix {
        (true, s.subrange(prefix.len() as int, s.len() as int))
    } else {
        (false, s)
    }
}

/// Try to strip the prefix `modifier` and a `-` from `s`.
/// `s`: "C-f", `modifier`: "C" gives `s`: "f" and `true`.
pub fn strip_modifier(s: &mut &str, modifier: &str) -> (r: bool)
    ensures
        (r, final(s)@) == strip_spec(old(s)@, modifier@),
{
    let n = s.unicode_len();
    let m = modifier.unicode_len();
    if m < n && str_eq(s.substring_char(0, m), modifier) && s.get_char(m) == '-' {
        proof {
            assert(s@.subrange(0, m + 1) =~= modifier@.push('-'));
        }
        *s = s.substring_char(m + 1, n);
        true
    } else {
        proof {
            let prefix = modifier@.push('-');
            if prefix.len() <= s@.len() && s@.subrange(0, prefix.len() as int) == prefix {
                assert(s@.subrange(0, m as int) =~= modifier@);
                assert(s@[m as int] == prefix[m as int]);
            }
        }
        false
    }
}

/// Split a key identifier into its modifiers and its keycode.
pub fn split_modifiers(s: &str) -> (r: (Modifiers, &str))
    ensures
        ({
            let (shift, s1) = strip_spec(s@, "S"@);
            let (ctrl, s2) = strip_spec(s1, "C"@);
            let (alt, s3) = strip_spec(s2, "A"@);
            let (logo, s4) = strip_spec(s3, "L"@);
            r.0 == (Modifiers { shift, ctrl, alt, logo }) && r.1@ == s4
        }),
{
    let mut rest = s;
    let shift = strip_modifier(&mut rest, "S");
    let ctrl = strip_modifier(&mut rest, "C");
    let alt = strip_modifier(&mut rest, "A");
    let logo = strip_modifier(&mut rest, "L");
    (Modifiers { shift, ctrl, alt, logo }, rest)
}

} // verus!
