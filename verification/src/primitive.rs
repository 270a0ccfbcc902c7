//! Primitive types: a primitive type name paired with a visibility mode,
//! written `<type_name>.<mode>`.
use vstd::prelude::*;
use vstd::string::StrSliceExecFns;
use vstd::string::StringExecFns;

use crate::error::SyntaxError;
use crate::mode::{lemma_mode_at_text, mode_at, mode_text, parse_mode_at, Mode};
use crate::scan::{lemma_char_differs_not_prefix, lemma_prefix_concat, match_keyword};

verus! {

/// The name of a primitive type.
#[derive(Clone, Copy, Debug, PartialEq, Eq, Hash, Structural)]
pub enum TypeName {
    Address,
    Boolean,
    Field,
    Group,
    I8,
    I16,
    I32,
    I64,
    I128,
    Scalar,
    U8,
    U16,
    U32,
    U64,
    U128,
}

/// A primitive type with an explicit visibility mode.
#[derive(Clone, Copy, Debug, PartialEq, Eq, Hash, Structural)]
pub struct Type {
    pub name: TypeName,
    pub mode: Mode,
}

/// The canonical text of a primitive type name.
pub open spec fn type_name_text(n: TypeName) -> Seq<char> {
    match n {
        TypeName::Address => "address"@,
        TypeName::Boolean => "boolean"@,
        TypeName::Field => "field"@,
        TypeName::Group => "group"@,
        TypeName::I8 => "i8"@,
        TypeName::I16 => "i16"@,
        TypeName::I32 => "i32"@,
        TypeName::I64 => "i64"@,
        TypeName::I128 => "i128"@,
        TypeName::Scalar => "scalar"@,
        TypeName::U8 => "u8"@,
        TypeName::U16 => "u16"@,
        TypeName::U32 => "u32"@,
        TypeName::U64 => "u64"@,
        TypeName::U128 => "u128"@,
    }
}

/// The canonical text of a primitive type: `<type_name>.<mode>`.
pub open spec fn type_text(t: Type) -> Seq<char> {
    type_name_text(t.name) + "."@ + mode_text(t.mode)
}

/// The number of characters the type production consumes for `t`.
pub open spec fn type_consumed(t: Type) -> int {
    type_name_text(t.name).len() + 1 + mode_text(t.mode).len() as int
}

/// The type-name production: each primitive type name is tried as a prefix of
/// `s`, in a fixed order. No name is a prefix of another, so at most one
/// matches.
pub open spec fn type_name_at(s: Seq<char>) -> Option<TypeName> {
    if type_name_text(TypeName::Address).is_prefix_of(s) {
        Some(TypeName::Address)
    } else if type_name_text(TypeName::Boolean).is_prefix_of(s) {
        Some(TypeName::Boolean)
    } else if type_name_text(TypeName::Field).is_prefix_of(s) {
        Some(TypeName::Field)
    } else if type_name_text(TypeName::Group).is_prefix_of(s) {
        Some(TypeName::Group)
    } else if type_name_text(TypeName::I8).is_prefix_of(s) {
        Some(TypeName::I8)
    } else if type_name_text(TypeName::I16).is_prefix_of(s) {
        Some(TypeName::I16)
    } else if type_name_text(TypeName::I32).is_prefix_of(s) {
        Some(TypeName::I32)
    } else if type_name_text(TypeName::I64).is_prefix_of(s) {
        Some(TypeName::I64)
    } else if type_name_text(TypeName::I128).is_prefix_of(s) {
        Some(TypeName::I128)
    } else if type_name_text(TypeName::Scalar).is_prefix_of(s) {
        Some(TypeName::Scalar)
    } else if type_name_text(TypeName::U8).is_prefix_of(s) {
        Some(TypeName::U8)
    } else if type_name_text(TypeName::U16).is_prefix_of(s) {
        Some(TypeName::U16)
    } else if type_name_text(TypeName::U32).is_prefix_of(s) {
        Some(TypeName::U32)
    } else if type_name_text(TypeName::U64).is_prefix_of(s) {
        Some(TypeName::U64)
    } else if type_name_text(TypeName::U128).is_prefix_of(s) {
        Some(TypeName::U128)
    } else {
        None
    }
}

/// The type production: a primitive type name, then `.`, then a mode, each
/// matched as a prefix; whatever follows the mode is left unconsumed.
pub open spec fn type_at(s: Seq<char>) -> Option<Type> {
    match type_name_at(s) {
        Some(n) => {
            let k = type_name_text(n).len() as int;
            if k < s.len() && s[k] == '.' {
                match mode_at(s.skip(k + 1)) {
                    Some(m) => Some(Type { name: n, mode: m }),
                    None => None,
                }
            } else {
                None
            }
        },
        None => None,
    }
}

/// A matched type name is a prefix of the input.
pub proof fn lemma_type_name_at_prefix(s: Seq<char>)
    ensures
        match type_name_at(s) {
            Some(n) => type_name_text(n).is_prefix_of(s),
            None => true,
        },
{
}

impl TypeName {
    /// The canonical text of this primitive type name.
    pub fn as_str(&self) -> (r: &'static str)
        ensures
            r@ == type_name_text(*self),
    {
        match self {
            TypeName::Address => "address",
            TypeName::Boolean => "boolean",
            TypeName::Field => "field",
            TypeName::Group => "group",
            TypeName::I8 => "i8",
            TypeName::I16 => "i16",
            TypeName::I32 => "i32",
            TypeName::I64 => "i64",
            TypeName::I128 => "i128",
            TypeName::Scalar => "scalar",
            TypeName::U8 => "u8",
            TypeName::U16 => "u16",
            TypeName::U32 => "u32",
            TypeName::U64 => "u64",
            TypeName::U128 => "u128",
        }
    }

    /// The length, in characters, of the canonical name.
    pub fn name_len(&self) -> (r: usize)
        ensures
            r as int == type_name_text(*self).len(),
    {
        self.as_str().unicode_len()
    }
}

/// The type-name production, on the text of `s` that starts at `from`.
pub(crate) fn parse_type_name_at(s: &str, from: usize) -> (r: Option<TypeName>)
    requires
        from <= s@.len(),
    ensures
        r == type_name_at(s@.skip(from as int)),
{
    if match_keyword(s, from, "address") {
        Some(TypeName::Address)
    } else if match_keyword(s, from, "boolean") {
        Some(TypeName::Boolean)
    } else if match_keyword(s, from, "field") {
        Some(TypeName::Field)
    } else if match_keyword(s, from, "group") {
        Some(TypeName::Group)
    } else if match_keyword(s, from, "i8") {
        Some(TypeName::I8)
    } else if match_keyword(s, from, "i16") {
        Some(TypeName::I16)
    } else if match_keyword(s, from, "i32") {
        Some(TypeName::I32)
    } else if match_keyword(s, from, "i64") {
        Some(TypeName::I64)
    } else if match_keyword(s, from, "i128") {
        Some(TypeName::I128)
    } else if match_keyword(s, from, "scalar") {
        Some(TypeName::Scalar)
    } else if match_keyword(s, from, "u8") {
        Some(TypeName::U8)
    } else if match_keyword(s, from, "u16") {
        Some(TypeName::U16)
    } else if match_keyword(s, from, "u32") {
        Some(TypeName::U32)
    } else if match_keyword(s, from, "u64") {
        Some(TypeName::U64)
    } else if match_keyword(s, from, "u128") {
        Some(TypeName::U128)
    } else {
        None
    }
}

impl Type {
    /// Parses a string into a primitive type. The type production succeeds
    /// only for a primitive type name immediately followed by `.` and a
    /// visibility mode; whatever follows the mode is returned unconsumed.
    pub fn parse(s: &str) -> (r: Result<(Type, &str), SyntaxError>)
        ensures
            match r {
                Ok((t, rest)) => {
                    &&& type_at(s@) == Some(t)
                    &&& rest@ == s@.skip(type_consumed(t))
                },
                Err(e) => {
                    &&& type_at(s@) is None
                    &&& e@ == s@
                },
            },
    {
        let n: usize = s.unicode_len();
        proof {
            assert(s@.skip(0) =~= s@);
        }
        match parse_type_name_at(s, 0) {
            None => Err(SyntaxError::new(s)),
            Some(name) => {
                proof {
                    lemma_type_name_at_prefix(s@);
                }
                let k: usize = name.name_len();
                if k < n && s.get_char(k) == '.' {
                    match parse_mode_at(s, k + 1) {
                        Some(m) => {
                            let consumed: usize = k + 1 + m.name_len();
                            let rest = s.substring_char(consumed, n);
                            Ok((Type { name, mode: m }, rest))
                        },
                        None => Err(SyntaxError::new(s)),
                    }
                } else {
                    Err(SyntaxError::new(s))
                }
            },
        }
    }

    /// Prints the type as `<type_name>.<mode>`.
    pub fn to_text(&self) -> (r: String)
        ensures
            r@ == type_text(*self),
    {
        let mut r: String = self.name.as_str().to_owned();
        r.append(".");
        r.append(self.mode.as_str());
        r
    }
}

/// The type production consumes exactly the canonical text of the type it
/// returns.
pub proof fn lemma_type_at_text(t: Type, rest: Seq<char>)
    ensures
        type_at(type_text(t) + rest) == Some(t),
        type_consumed(t) == type_text(t).len(),
{
    reveal_strlit("address");
    reveal_strlit("boolean");
    reveal_strlit("field");
    reveal_strlit("group");
    reveal_strlit("i8");
    reveal_strlit("i16");
    reveal_strlit("i32");
    reveal_strlit("i64");
    reveal_strlit("i128");
    reveal_strlit("scalar");
    reveal_strlit("u8");
    reveal_strlit("u16");
    reveal_strlit("u32");
    reveal_strlit("u64");
    reveal_strlit("u128");
    reveal_strlit(".");
    let s = type_text(t) + rest;
    let name = type_name_text(t.name);
    let k = name.len() as int;
    assert(s =~= name + ("."@ + mode_text(t.mode) + rest));
    lemma_prefix_concat(name, "."@ + mode_text(t.mode) + rest);
    lemma_not_earlier_type_name(t.name, s);
    assert(type_name_at(s) == Some(t.name));
    assert(s[k] == '.');
    assert(s.skip(k + 1) =~= mode_text(t.mode) + rest);
    lemma_mode_at_text(t.mode, rest);
}

/// The type-name production recognizes every primitive type name, and any
/// text that begins with one.
pub proof fn lemma_type_name_at_itself(n: TypeName, s: Seq<char>)
    requires
        type_name_text(n).is_prefix_of(s),
    ensures
        type_name_at(s) == Some(n),
{
    lemma_not_earlier_type_name(n, s);
}

/// In the fixed order of the type-name production, no name tried before `n`
/// matches a text that begins with the name of `n`.
proof fn lemma_not_earlier_type_name(n: TypeName, s: Seq<char>)
    requires
        type_name_text(n).is_prefix_of(s),
    ensures
        type_name_at(s) == Some(n),
{
    reveal_strlit("address");
    reveal_strlit("boolean");
    reveal_strlit("field");
    reveal_strlit("group");
    reveal_strlit("i8");
    reveal_strlit("i16");
    reveal_strlit("i32");
    reveal_strlit("i64");
    reveal_strlit("i128");
    reveal_strlit("scalar");
    reveal_strlit("u8");
    reveal_strlit("u16");
    reveal_strlit("u32");
    reveal_strlit("u64");
    reveal_strlit("u128");
    let p = type_name_text(n);
    crate::scan::lemma_prefix_chars(p, s);
    match n {
        TypeName::Address => {
        },
        TypeName::Boolean => {
            lemma_char_differs_not_prefix(type_name_text(TypeName::Address), s, 0);
        },
        TypeName::Field => {
            lemma_char_differs_not_prefix(type_name_text(TypeName::Address), s, 0);
            lemma_char_differs_not_prefix(type_name_text(TypeName::Boolean), s, 0);
        },
        TypeName::Group => {
            lemma_char_differs_not_prefix(type_name_text(TypeName::Address), s, 0);
            lemma_char_differs_not_prefix(type_name_text(TypeName::Boolean), s, 0);
            lemma_char_differs_not_prefix(type_name_text(TypeName::Field), s, 0);
        },
        TypeName::I8 => {
            lemma_char_differs_not_prefix(type_name_text(TypeName::Address), s, 0);
            lemma_char_differs_not_prefix(type_name_text(TypeName::Boolean), s, 0);
            lemma_char_differs_not_prefix(type_name_text(TypeName::Field), s, 0);
            lemma_char_differs_not_prefix(type_name_text(TypeName::Group), s, 0);
        },
        TypeName::I16 => {
            lemma_char_differs_not_prefix(type_name_text(TypeName::Address), s, 0);
            lemma_char_differs_not_prefix(type_name_text(TypeName::Boolean), s, 0);
            lemma_char_differs_not_prefix(type_name_text(TypeName::Field), s, 0);
            lemma_char_differs_not_prefix(type_name_text(TypeName::Group), s, 0);
            lemma_char_differs_not_prefix(type_name_text(TypeName::I8), s, 1);
        },
        TypeName::I32 => {
            lemma_char_differs_not_prefix(type_name_text(TypeName::Address), s, 0);
            lemma_char_differs_not_prefix(type_name_text(TypeName::Boolean), s, 0);
            lemma_char_differs_not_prefix(type_name_text(TypeName::Field), s, 0);
            lemma_char_differs_not_prefix(type_name_text(TypeName::Group), s, 0);
            lemma_char_differs_not_prefix(type_name_text(TypeName::I8), s, 1);
            lemma_char_differs_not_prefix(type_name_text(TypeName::I16), s, 1);
        },
        TypeName::I64 => {
            lemma_char_differs_not_prefix(type_name_text(TypeName::Address), s, 0);
            lemma_char_differs_not_prefix(type_name_text(TypeName::Boolean), s, 0);
            lemma_char_differs_not_prefix(type_name_text(TypeName::Field), s, 0);
            lemma_char_differs_not_prefix(type_name_text(TypeName::Group), s, 0);
            lemma_char_differs_not_prefix(type_name_text(TypeName::I8), s, 1);
            lemma_char_differs_not_prefix(type_name_text(TypeName::I16), s, 1);
            lemma_char_differs_not_prefix(type_name_text(TypeName::I32), s, 1);
        },
        TypeName::I128 => {
            lemma_char_differs_not_prefix(type_name_text(TypeName::Address), s, 0);
            lemma_char_differs_not_prefix(type_name_text(TypeName::Boolean), s, 0);
            lemma_char_differs_not_prefix(type_name_text(TypeName::Field), s, 0);
            lemma_char_differs_not_prefix(type_name_text(TypeName::Group), s, 0);
            lemma_char_differs_not_prefix(type_name_text(TypeName::I8), s, 1);
            lemma_char_differs_not_prefix(type_name_text(TypeName::I16), s, 2);
            lemma_char_differs_not_prefix(type_name_text(TypeName::I32), s, 1);
            lemma_char_differs_not_prefix(type_name_text(TypeName::I64), s, 1);
        },
        TypeName::Scalar => {
            lemma_char_differs_not_prefix(type_name_text(TypeName::Address), s, 0);
            lemma_char_differs_not_prefix(type_name_text(TypeName::Boolean), s, 0);
            lemma_char_differs_not_prefix(type_name_text(TypeName::Field), s, 0);
            lemma_char_differs_not_prefix(type_name_text(TypeName::Group), s, 0);
            lemma_char_differs_not_prefix(type_name_text(TypeName::I8), s, 0);
            lemma_char_differs_not_prefix(type_name_text(TypeName::I16), s, 0);
            lemma_char_differs_not_prefix(type_name_text(TypeName::I32), s, 0);
            lemma_char_differs_not_prefix(type_name_text(TypeName::I64), s, 0);
            lemma_char_differs_not_prefix(type_name_text(TypeName::I128), s, 0);
        },
        TypeName::U8 => {
            lemma_char_differs_not_prefix(type_name_text(TypeName::Address), s, 0);
            lemma_char_differs_not_prefix(type_name_text(TypeName::Boolean), s, 0);
            lemma_char_differs_not_prefix(type_name_text(TypeName::Field), s, 0);
            lemma_char_differs_not_prefix(type_name_text(TypeName::Group), s, 0);
            lemma_char_differs_not_prefix(type_name_text(TypeName::I8), s, 0);
            lemma_char_differs_not_prefix(type_name_text(TypeName::I16), s, 0);
            lemma_char_differs_not_prefix(type_name_text(TypeName::I32), s, 0);
            lemma_char_differs_not_prefix(type_name_text(TypeName::I64), s, 0);
            lemma_char_differs_not_prefix(type_name_text(TypeName::I128), s, 0);
            lemma_char_differs_not_prefix(type_name_text(TypeName::Scalar), s, 0);
        },
        TypeName::U16 => {
            lemma_char_differs_not_prefix(type_name_text(TypeName::Address), s, 0);
            lemma_char_differs_not_prefix(type_name_text(TypeName::Boolean), s, 0);
            lemma_char_differs_not_prefix(type_name_text(TypeName::Field), s, 0);
            lemma_char_differs_not_prefix(type_name_text(TypeName::Group), s, 0);
            lemma_char_differs_not_prefix(type_name_text(TypeName::I8), s, 0);
            lemma_char_differs_not_prefix(type_name_text(TypeName::I16), s, 0);
            lemma_char_differs_not_prefix(type_name_text(TypeName::I32), s, 0);
            lemma_char_differs_not_prefix(type_name_text(TypeName::I64), s, 0);
            lemma_char_differs_not_prefix(type_name_text(TypeName::I128), s, 0);
            lemma_char_differs_not_prefix(type_name_text(TypeName::Scalar), s, 0);
            lemma_char_differs_not_prefix(type_name_text(TypeName::U8), s, 1);
        },
        TypeName::U32 => {
            lemma_char_differs_not_prefix(type_name_text(TypeName::Address), s, 0);
            lemma_char_differs_not_prefix(type_name_text(TypeName::Boolean), s, 0);
            lemma_char_differs_not_prefix(type_name_text(TypeName::Field), s, 0);
            lemma_char_differs_not_prefix(type_name_text(TypeName::Group), s, 0);
            lemma_char_differs_not_prefix(type_name_text(TypeName::I8), s, 0);
            lemma_char_differs_not_prefix(type_name_text(TypeName::I16), s, 0);
            lemma_char_differs_not_prefix(type_name_text(TypeName::I32), s, 0);
            lemma_char_differs_not_prefix(type_name_text(TypeName::I64), s, 0);
            lemma_char_differs_not_prefix(type_name_text(TypeName::I128), s, 0);
            lemma_char_differs_not_prefix(type_name_text(TypeName::Scalar), s, 0);
            lemma_char_differs_not_prefix(type_name_text(TypeName::U8), s, 1);
            lemma_char_differs_not_prefix(type_name_text(TypeName::U16), s, 1);
        },
        TypeName::U64 => {
            lemma_char_differs_not_prefix(type_name_text(TypeName::Address), s, 0);
            lemma_char_differs_not_prefix(type_name_text(TypeName::Boolean), s, 0);
            lemma_char_differs_not_prefix(type_name_text(TypeName::Field), s, 0);
            lemma_char_differs_not_prefix(type_name_text(TypeName::Group), s, 0);
            lemma_char_differs_not_prefix(type_name_text(TypeName::I8), s, 0);
            lemma_char_differs_not_prefix(type_name_text(TypeName::I16), s, 0);
            lemma_char_differs_not_prefix(type_name_text(TypeName::I32), s, 0);
            lemma_char_differs_not_prefix(type_name_text(TypeName::I64), s, 0);
            lemma_char_differs_not_prefix(type_name_text(TypeName::I128), s, 0);
            lemma_char_differs_not_prefix(type_name_text(TypeName::Scalar), s, 0);
            lemma_char_differs_not_prefix(type_name_text(TypeName::U8), s, 1);
            lemma_char_differs_not_prefix(type_name_text(TypeName::U16), s, 1);
            lemma_char_differs_not_prefix(type_name_text(TypeName::U32), s, 1);
        },
        TypeName::U128 => {
            lemma_char_differs_not_prefix(type_name_text(TypeName::Address), s, 0);
            lemma_char_differs_not_prefix(type_name_text(TypeName::Boolean), s, 0);
            lemma_char_differs_not_prefix(type_name_text(TypeName::Field), s, 0);
            lemma_char_differs_not_prefix(type_name_text(TypeName::Group), s, 0);
            lemma_char_differs_not_prefix(type_name_text(TypeName::I8), s, 0);
            lemma_char_differs_not_prefix(type_name_text(TypeName::I16), s, 0);
            lemma_char_differs_not_prefix(type_name_text(TypeName::I32), s, 0);
            lemma_char_differs_not_prefix(type_name_text(TypeName::I64), s, 0);
            lemma_char_differs_not_prefix(type_name_text(TypeName::I128), s, 0);
            lemma_char_differs_not_prefix(type_name_text(TypeName::Scalar), s, 0);
            lemma_char_differs_not_prefix(type_name_text(TypeName::U8), s, 1);
            lemma_char_differs_not_prefix(type_name_text(TypeName::U16), s, 2);
            lemma_char_differs_not_prefix(type_name_text(TypeName::U32), s, 1);
            lemma_char_differs_not_prefix(type_name_text(TypeName::U64), s, 1);
        },
    }
}

} // verus!
