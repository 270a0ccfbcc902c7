//! The syntax error reported when no production matches the input.
use vstd::prelude::*;
use vstd::string::StringExecFns;

verus! {

/// No production matched the input. The error keeps the input it was given,
/// so that the caller can report a precise diagnostic; its view is that
/// input's character sequence.
#[derive(Clone, Debug)]
pub struct SyntaxError {
    input: String,
}

impl View for SyntaxError {
    type V = Seq<char>;

    closed spec fn view(&self) -> Seq<char> {
        self.input@
    }
}

impl SyntaxError {
    /// A syntax error that records the input that no production matched.
    pub fn new(s: &str) -> (e: Self)
        ensures
            e@ == s@,
    {
        SyntaxError { input: String::from_str(s) }
    }

    /// The input that no production matched.
    pub fn input(&self) -> (r: &str)
        ensures
            r@ == self@,
    {
        self.input.as_str()
    }
}

impl PartialEq for SyntaxError {
    fn eq(&self, other: &Self) -> (r: bool) {
        self.input == other.input
    }
}

impl vstd::std_specs::cmp::PartialEqSpecImpl for SyntaxError {
    open spec fn obeys_eq_spec() -> bool {
        true
    }

    open spec fn eq_spec(&self, other: &Self) -> bool {
        self@ == other@
    }
}

} // verus!
