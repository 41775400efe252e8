//! Flags handed to the scripting layer on the command line.

use vstd::prelude::*;
use vstd::string::StringExecFns;

use crate::util::find_char;

verus! {

/// What `str::trim_start` makes of a string.
pub uninterp spec fn trim_start_of(s: Seq<char>) -> Seq<char>;

/// Relies on `str::trim_start`: the string with its leading whitespace
/// removed, which is a suffix of it.
#[verifier::external_body]
fn trim_start(s: &str) -> (r: &str)
    ensures
        r@ == trim_start_of(s@),
        r@.len() <= s@.len(),
        r@ == s@.subrange(s@.len() - r@.len(), s@.len() as int),
{
    s.trim_start()
}

/// A flag set as a variable for the scripts before the startup script runs.
#[derive(Clone, Debug)]
pub struct ConfigFlag {
    /// The name of the flag
    pub name: String,
    /// The value of the flag, if it has one
    pub val: Option<String>,
}

impl ConfigFlag {
    /// Read a flag written `NAME` or `NAME:VALUE`. The name ends at the first
    /// `:`, and the value has its leading whitespace removed.
    pub fn parse(s: &str) -> (r: ConfigFlag)
        ensures
            !s@.contains(':') ==> r.name@ == s@ && r.val is None,
            s@.contains(':') ==> {
                let i = choose|i: int| 0 <= i < s@.len() && s@[i] == ':' && forall|j: int|
                    0 <= j < i ==> s@[j] != ':';
                &&& r.name@ == s@.subrange(0, i)
                &&& r.val matches Some(v) && v@ == trim_start_of(s@.subrange(i + 1, s@.len() as int))
            },
    {
        match find_char(s, ':') {
            Some(i) => {
                let n = s.unicode_len();
                let name = s.substring_char(0, i);
                let rest = s.substring_char(i + 1, n);
                let val = trim_start(rest);
                proof {
                    let k = choose|k: int| 0 <= k < s@.len() && s@[k] == ':' && forall|j: int|
                        0 <= j < k ==> s@[j] != ':';
                    if k < i {
                    } else if k > i {
                        assert(s@[i as int] == ':');
                    }
                    assert(k == i);
                }
                ConfigFlag { name: String::from_str(name), val: Some(String::from_str(val)) }
            },
            None => ConfigFlag { name: String::from_str(s), val: None },
        }
    }
}

impl std::str::FromStr for ConfigFlag {
    type Err = std::convert::Infallible;

    fn from_str(s: &str) -> Result<Self, std::convert::Infallible> {
        Ok(ConfigFlag::parse(s))
    }
}

} // verus!
