use vstd::prelude::*;

verus! {

/// An immutable reference to a content-addressed build artifact.
///
/// Equality is by the wrapped path string; once constructed the value is
/// never mutated.
#[derive(Debug)]
pub struct StorePath {
    path: String,
}

impl View for StorePath {
    type V = Seq<char>;

    closed spec fn view(&self) -> Seq<char> {
        self.path@
    }
}

impl StorePath {
    /// Wraps a path string as a store path.
    pub fn from(path: String) -> (r: StorePath)
        ensures
            r@ == path@,
    {
        StorePath { path }
    }

    /// The wrapped path string.
    pub fn as_str(&self) -> (r: &str)
        ensures
            r@ == self@,
    {
        self.path.as_str()
    }

    /// A fresh copy of the wrapped path string.
    pub fn to_path_string(&self) -> (r: String)
        ensures
            r@ == self@,
    {
        self.path.clone()
    }
}

impl Clone for StorePath {
    fn clone(&self) -> (r: Self)
        ensures
            r@ == self@,
    {
        StorePath { path: self.path.clone() }
    }
}

impl PartialEq for StorePath {
    fn eq(&self, other: &StorePath) -> (r: bool)
        ensures
            r == (self@ == other@),
    {
        self.path == other.path
    }
}

impl vstd::std_specs::cmp::PartialEqSpecImpl for StorePath {
    open spec fn obeys_eq_spec() -> bool {
        true
    }

    open spec fn eq_spec(&self, other: &StorePath) -> bool {
        self@ == other@
    }
}

} // verus!
