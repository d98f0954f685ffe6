//! The captured path parameters of one matched request.

use vstd::prelude::*;

use crate::strutil::str_eq;
use crate::typemap::Key;

verus! {

/// The token the router stores captured parameters under.
pub const PARAMETERS_TOKEN: u64 = 1;

/// The substrings a winning pattern captured from a request path, reachable
/// by position and by name. Group 0 is the whole match; `get` counts from
/// the first real capture group.
pub struct Parameters {
    text: String,
    captures: Vec<Option<String>>,
    names: Vec<(String, usize)>,
}

/// The mathematical picture of a `Parameters` value.
pub struct ParametersView {
    pub text: Seq<char>,
    pub captures: Seq<Option<Seq<char>>>,
    pub names: Seq<(Seq<char>, usize)>,
}

impl View for Parameters {
    type V = ParametersView;

    closed spec fn view(&self) -> ParametersView {
        ParametersView {
            text: self.text@,
            captures: self.captures.deep_view(),
            names: self.names.deep_view(),
        }
    }
}

/// The index the first entry with the given name points at, if any.
pub open spec fn spec_lookup(names: Seq<(Seq<char>, usize)>, name: Seq<char>) -> Option<usize>
    decreases names.len(),
{
    if names.len() == 0 {
        None
    } else if names[0].0 == name {
        Some(names[0].1)
    } else {
        spec_lookup(names.drop_first(), name)
    }
}

impl ParametersView {
    /// The capture at `index`, counting from the first real group.
    pub open spec fn spec_get(self, index: int) -> Option<Seq<char>> {
        if 0 <= index && index + 1 < self.captures.len() {
            self.captures[index + 1]
        } else {
            None
        }
    }

    /// The capture the given group name points at.
    pub open spec fn spec_name(self, name: Seq<char>) -> Option<Seq<char>> {
        match spec_lookup(self.names, name) {
            Some(i) => if i >= 1 {
                self.spec_get(i - 1)
            } else {
                None
            },
            None => None,
        }
    }
}

impl Key for Parameters {
    fn token() -> u64 {
        PARAMETERS_TOKEN
    }
}

impl Parameters {
    /// Assembles the parameters of one match: the matched text, the capture
    /// table (group 0 first) and the name table of the winning pattern.
    pub fn new(names: Vec<(String, usize)>, text: String, captures: Vec<Option<String>>) -> (r:
        Parameters)
        ensures
            r@.text == text@,
            r@.captures == captures.deep_view(),
            r@.names == names.deep_view(),
    {
        Parameters { text, captures, names }
    }

    /// The text the pattern was matched against.
    pub fn text(&self) -> (r: &str)
        ensures
            r@ == self@.text,
    {
        self.text.as_str()
    }

    /// A capture by position; `get(0)` is the first capture group, not the
    /// whole match.
    pub fn get(&self, index: usize) -> (r: Option<&str>)
        ensures
            match r {
                Some(s) => self@.spec_get(index as int) == Some(s@),
                None => self@.spec_get(index as int) is None,
            },
    {
        if index < self.captures.len() && index + 1 < self.captures.len() {
            match &self.captures[index + 1] {
                Some(s) => Some(s.as_str()),
                None => None,
            }
        } else {
            None
        }
    }

    /// A capture by group name.
    pub fn name(&self, name: &str) -> (r: Option<&str>)
        ensures
            match r {
                Some(s) => self@.spec_name(name@) == Some(s@),
                None => self@.spec_name(name@) is None,
            },
    {
        let mut i: usize = 0;
        proof {
            assert(self@.names.skip(0) =~= self@.names);
        }
        while i < self.names.len()
            invariant
                i <= self.names@.len(),
                spec_lookup(self@.names, name@) == spec_lookup(
                    self@.names.skip(i as int),
                    name@,
                ),
            decreases self.names@.len() - i,
        {
            if str_eq(self.names[i].0.as_str(), name) {
                proof {
                    assert(self@.names.skip(i as int)[0] == self@.names[i as int]);
                }
                let idx = self.names[i].1;
                if idx >= 1 {
                    return self.get(idx - 1);
                } else {
                    return None;
                }
            }
            proof {
                assert(self@.names.skip(i as int).drop_first() =~= self@.names.skip(i + 1));
                assert(self@.names.skip(i as int)[0] == self@.names[i as int]);
            }
            i = i + 1;
        }
        proof {
            assert(self@.names.skip(i as int).len() == 0);
        }
        None
    }
}

} // verus!
