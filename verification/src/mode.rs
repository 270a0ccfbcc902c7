//! Visibility modes: the qualifier attached to a primitive type name.
use vstd::prelude::*;
use vstd::string::StrSliceExecFns;

use crate::scan::match_keyword;

verus! {

/// The visibility mode attached to a primitive type.
#[derive(Clone, Copy, Debug, PartialEq, Eq, Hash, Structural)]
pub enum Mode {
    Constant,
    Public,
    Private,
}

/// The canonical text of a mode.
pub open spec fn mode_text(m: Mode) -> Seq<char> {
    match m {
        Mode::Constant => "constant"@,
        Mode::Public => "public"@,
        Mode::Private => "private"@,
    }
}

/// The mode production: each mode name is tried as a prefix of `s`, in a
/// fixed order. No mode name is a prefix of another, so at most one matches.
pub open spec fn mode_at(s: Seq<char>) -> Option<Mode> {
    if mode_text(Mode::Constant).is_prefix_of(s) {
        Some(Mode::Constant)
    } else if mode_text(Mode::Public).is_prefix_of(s) {
        Some(Mode::Public)
    } else if mode_text(Mode::Private).is_prefix_of(s) {
        Some(Mode::Private)
    } else {
        None
    }
}

impl Mode {
    /// The canonical name of this mode, e.g. `private`.
    pub fn as_str(&self) -> (r: &'static str)
        ensures
            r@ == mode_text(*self),
    {
        match self {
            Mode::Constant => "constant",
            Mode::Public => "public",
            Mode::Private => "private",
        }
    }

    /// The length, in characters, of the canonical name of this mode.
    pub fn name_len(&self) -> (r: usize)
        ensures
            r as int == mode_text(*self).len(),
    {
        self.as_str().unicode_len()
    }
}

/// The mode production, on the text of `s` that starts at `from`.
pub(crate) fn parse_mode_at(s: &str, from: usize) -> (r: Option<Mode>)
    requires
        from <= s@.len(),
    ensures
        r == mode_at(s@.skip(from as int)),
{
    if match_keyword(s, from, "constant") {
        Some(Mode::Constant)
    } else if match_keyword(s, from, "public") {
        Some(Mode::Public)
    } else if match_keyword(s, from, "private") {
        Some(Mode::Private)
    } else {
        None
    }
}

/// The mode production consumes the text of the mode it returns.
pub proof fn lemma_mode_at_text(m: Mode, rest: Seq<char>)
    ensures
        mode_at(mode_text(m) + rest) == Some(m),
{
    let s = mode_text(m) + rest;
    crate::scan::lemma_prefix_concat(mode_text(m), rest);
    reveal_strlit("constant");
    reveal_strlit("public");
    reveal_strlit("private");
    match m {
        Mode::Constant => {
        },
        Mode::Public => {
            crate::scan::lemma_char_differs_not_prefix(mode_text(Mode::Constant), s, 0);
        },
        Mode::Private => {
            crate::scan::lemma_char_differs_not_prefix(mode_text(Mode::Constant), s, 0);
            crate::scan::lemma_char_differs_not_prefix(mode_text(Mode::Public), s, 1);
        },
    }
}

} // verus!
