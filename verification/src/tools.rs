//! The tools that the agent has built in.

use vstd::prelude::*;
use crate::text::{str_eq, views};

verus! {

/// The names of the built-in tools.
pub open spec fn builtin_names() -> Seq<Seq<char>> {
    seq!["system_info"@, "datetime_info"@, "location_info"@]
}

/// The registry of built-in tools, by name; what each tool does is run by
/// the caller.
#[derive(Debug, Clone)]
pub struct BuiltinTools {
    names: Vec<String>,
}

impl BuiltinTools {
    /// The registry with the system, date and time, and location tools.
    pub fn new() -> (t: Self)
        ensures
            t.names() == builtin_names(),
    {
        let mut names: Vec<String> = Vec::new();
        names.push(String::from_str("system_info"));
        names.push(String::from_str("datetime_info"));
        names.push(String::from_str("location_info"));
        let t = BuiltinTools { names };
        assert(views(t.names@) =~= builtin_names());
        t
    }

    /// The names of the tools.
    pub closed spec fn names(&self) -> Seq<Seq<char>> {
        views(self.names@)
    }

    /// The names of the tools.
    pub fn list_tools(&self) -> (r: Vec<String>)
        ensures
            views(r@) == self.names(),
    {
        let mut r: Vec<String> = Vec::new();
        let mut i: usize = 0;
        while i < self.names.len()
            invariant
                i <= self.names@.len(),
                views(r@) == views(self.names@).take(i as int),
            decreases self.names@.len() - i,
        {
            let ghost before = r@;
            r.push(self.names[i].clone());
            proof {
                assert(views(r@) =~= views(before).push(self.names@[i as int]@));
                assert(views(r@) =~= views(self.names@).take(i + 1));
            }
            i = i + 1;
        }
        assert(views(self.names@).take(self.names@.len() as int) =~= views(self.names@));
        r
    }

    /// Whether a tool of that name is built in.
    pub fn has_tool(&self, name: &str) -> (r: bool)
        ensures
            r == self.names().contains(name@),
    {
        let mut i: usize = 0;
        while i < self.names.len()
            invariant
                i <= self.names@.len(),
                forall|j: int| 0 <= j < i ==> self.names@[j]@ != name@,
            decreases self.names@.len() - i,
        {
            if str_eq(self.names[i].as_str(), name) {
                proof {
                    assert(views(self.names@)[i as int] == name@);
                }
                return true;
            }
            i = i + 1;
        }
        proof {
            if views(self.names@).contains(name@) {
                let j = choose|j: int| 0 <= j < views(self.names@).len() && views(self.names@)[j] == name@;
                assert(self.names@[j]@ == name@);
            }
        }
        false
    }
}

impl Default for BuiltinTools {
    fn default() -> (t: Self)
        ensures
            t.names() == builtin_names(),
    {
        BuiltinTools::new()
    }
}

} // verus!
