//! Identifiers: user-chosen names for composite types. An identifier starts
//! with an ASCII lowercase letter, continues with lowercase letters, digits
//! and underscores, and is not a reserved keyword.
use vstd::prelude::*;
use vstd::string::StrSliceExecFns;
use vstd::string::StringExecFns;

use crate::error::SyntaxError;
use crate::primitive::{type_name_text, TypeName};
use crate::scan::{
    identifier_char, identifier_end, identifier_start_char, is_identifier_char,
    is_identifier_start, lemma_identifier_end_from, match_keyword, scan_identifier_end,
};

verus! {

/// The reserved keywords: every primitive type name, and `record`. This list
/// is the single source of truth for keyword reservation; the identifier
/// production refuses to match any of these.
pub open spec fn is_reserved(s: Seq<char>) -> bool {
    ||| s == "address"@
    ||| s == "boolean"@
    ||| s == "field"@
    ||| s == "group"@
    ||| s == "i8"@
    ||| s == "i16"@
    ||| s == "i32"@
    ||| s == "i64"@
    ||| s == "i128"@
    ||| s == "scalar"@
    ||| s == "u8"@
    ||| s == "u16"@
    ||| s == "u32"@
    ||| s == "u64"@
    ||| s == "u128"@
    ||| s == "record"@
}

/// The reserved keywords are exactly the primitive type names together with
/// `record`.
pub proof fn lemma_reserved_keywords(s: Seq<char>)
    ensures
        is_reserved(s) <==> ((exists|n: TypeName| type_name_text(n) == s) || s == "record"@),
{
    if is_reserved(s) && s != "record"@ {
        if s == "address"@ {
            assert(type_name_text(TypeName::Address) == s);
        } else if s == "boolean"@ {
            assert(type_name_text(TypeName::Boolean) == s);
        } else if s == "field"@ {
            assert(type_name_text(TypeName::Field) == s);
        } else if s == "group"@ {
            assert(type_name_text(TypeName::Group) == s);
        } else if s == "i8"@ {
            assert(type_name_text(TypeName::I8) == s);
        } else if s == "i16"@ {
            assert(type_name_text(TypeName::I16) == s);
        } else if s == "i32"@ {
            assert(type_name_text(TypeName::I32) == s);
        } else if s == "i64"@ {
            assert(type_name_text(TypeName::I64) == s);
        } else if s == "i128"@ {
            assert(type_name_text(TypeName::I128) == s);
        } else if s == "scalar"@ {
            assert(type_name_text(TypeName::Scalar) == s);
        } else if s == "u8"@ {
            assert(type_name_text(TypeName::U8) == s);
        } else if s == "u16"@ {
            assert(type_name_text(TypeName::U16) == s);
        } else if s == "u32"@ {
            assert(type_name_text(TypeName::U32) == s);
        } else if s == "u64"@ {
            assert(type_name_text(TypeName::U64) == s);
        } else {
            assert(type_name_text(TypeName::U128) == s);
        }
    }
    if exists|n: TypeName| type_name_text(n) == s {
        let n = choose|n: TypeName| type_name_text(n) == s;
        match n {
            TypeName::Address => {
            },
            TypeName::Boolean => {
            },
            TypeName::Field => {
            },
            TypeName::Group => {
            },
            TypeName::I8 => {
            },
            TypeName::I16 => {
            },
            TypeName::I32 => {
            },
            TypeName::I64 => {
            },
            TypeName::I128 => {
            },
            TypeName::Scalar => {
            },
            TypeName::U8 => {
            },
            TypeName::U16 => {
            },
            TypeName::U32 => {
            },
            TypeName::U64 => {
            },
            TypeName::U128 => {
            },
        }
    }
}

/// A valid identifier: nonempty, begins with a lowercase letter, consists of
/// identifier characters, and is not a reserved keyword.
pub open spec fn is_valid_identifier(s: Seq<char>) -> bool {
    &&& s.len() > 0
    &&& is_identifier_start(s[0])
    &&& forall|i: int| 0 <= i < s.len() ==> is_identifier_char(s[i])
    &&& !is_reserved(s)
}

/// The identifier production: the longest prefix of identifier characters,
/// provided it is nonempty, begins with a letter, and is not reserved. It
/// stops at the first character that cannot continue an identifier, leaving
/// any suffix (such as `.private`) unconsumed.
pub open spec fn identifier_at(s: Seq<char>) -> Option<Seq<char>> {
    let e = identifier_end(s);
    if e > 0 && is_identifier_start(s[0]) && !is_reserved(s.subrange(0, e)) {
        Some(s.subrange(0, e))
    } else {
        None
    }
}

/// What the identifier production returns is a valid identifier.
pub proof fn lemma_identifier_at_valid(s: Seq<char>)
    ensures
        match identifier_at(s) {
            Some(name) => is_valid_identifier(name) && name.len() <= s.len(),
            None => true,
        },
{
    lemma_identifier_end_from(s, 0);
}

/// A user-chosen name for a composite type.
#[derive(Clone, Debug, Eq, Hash)]
pub struct Identifier {
    name: String,
}

impl View for Identifier {
    type V = Seq<char>;

    closed spec fn view(&self) -> Seq<char> {
        self.name@
    }
}

impl PartialEq for Identifier {
    fn eq(&self, other: &Self) -> (r: bool) {
        self.name == other.name
    }
}

impl vstd::std_specs::cmp::PartialEqSpecImpl for Identifier {
    open spec fn obeys_eq_spec() -> bool {
        true
    }

    open spec fn eq_spec(&self, other: &Self) -> bool {
        self@ == other@
    }
}

impl Identifier {
    /// Wraps a name that is already a valid identifier.
    pub fn new(s: &str) -> (r: Self)
        requires
            is_valid_identifier(s@),
        ensures
            r@ == s@,
    {
        Identifier { name: String::from_str(s) }
    }

    /// The name as text.
    pub fn as_str(&self) -> (r: &str)
        ensures
            r@ == self@,
    {
        self.name.as_str()
    }

    /// Parses a string into an identifier: the longest prefix of identifier
    /// characters, which must be nonempty, begin with a lowercase letter, and
    /// not be a reserved keyword. The rest of the string is returned
    /// unconsumed.
    pub fn parse(s: &str) -> (r: Result<(Identifier, &str), SyntaxError>)
        ensures
            match r {
                Ok((id, rest)) => {
                    &&& identifier_at(s@) == Some(id@)
                    &&& rest@ == s@.skip(id@.len() as int)
                    &&& is_valid_identifier(id@)
                },
                Err(e) => {
                    &&& identifier_at(s@) is None
                    &&& e@ == s@
                },
            },
    {
        let n: usize = s.unicode_len();
        let e: usize = scan_identifier_end(s);
        proof {
            lemma_identifier_end_from(s@, 0);
            lemma_identifier_at_valid(s@);
        }
        if e == 0 {
            return Err(SyntaxError::new(s));
        }
        if !identifier_start_char(s.get_char(0)) {
            return Err(SyntaxError::new(s));
        }
        if reserved_segment(s, e) {
            return Err(SyntaxError::new(s));
        }
        let name: String = String::from_str(s.substring_char(0, e));
        let rest: &str = s.substring_char(e, n);
        Ok((Identifier { name }, rest))
    }
}

/// Is the segment `s[..e]` equal to `kw`?
fn segment_is(s: &str, e: usize, kw: &str) -> (r: bool)
    requires
        e <= s@.len(),
    ensures
        r == (s@.subrange(0, e as int) == kw@),
{
    if e != kw.unicode_len() {
        return false;
    }
    let m = match_keyword(s, 0, kw);
    proof {
        assert(s@.skip(0) =~= s@);
        if m {
            assert(s@.subrange(0, e as int) =~= kw@);
        } else if s@.subrange(0, e as int) == kw@ {
            assert(kw@ =~= s@.subrange(0, kw@.len() as int));
        }
    }
    m
}

/// Is the segment `s[..e]` a reserved keyword?
pub(crate) fn reserved_segment(s: &str, e: usize) -> (r: bool)
    requires
        e <= s@.len(),
    ensures
        r == is_reserved(s@.subrange(0, e as int)),
{
    segment_is(s, e, "address") || segment_is(s, e, "boolean") || segment_is(s, e, "field")
        || segment_is(s, e, "group") || segment_is(s, e, "i8") || segment_is(s, e, "i16")
        || segment_is(s, e, "i32") || segment_is(s, e, "i64") || segment_is(s, e, "i128")
        || segment_is(s, e, "scalar") || segment_is(s, e, "u8") || segment_is(s, e, "u16")
        || segment_is(s, e, "u32") || segment_is(s, e, "u64") || segment_is(s, e, "u128")
        || segment_is(s, e, "record")
}

} // verus!
