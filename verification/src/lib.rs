//! The annotation production of a circuit-description language: the declared
//! type of a function or template parameter, together with its textual parser
//! and printer.
//!
//! An annotation is one of three lexical forms, tried in a fixed priority
//! order by the parser:
//! 1. a primitive type with an explicit visibility mode, written
//!    `<type_name>.<mode>` (for example `field.private`);
//! 2. a user-defined composite type referenced by a bare identifier;
//! 3. the reserved `record` type, written exactly `record`.
#![allow(unused_imports)]
use vstd::prelude::*;

mod error;
mod identifier;
mod mode;
mod primitive;
mod scan;

pub use error::SyntaxError;
pub use identifier::{identifier_at, is_reserved, is_valid_identifier, Identifier};
pub use mode::{mode_at, mode_text, Mode};
pub use primitive::{type_at, type_consumed, type_name_text, type_text, Type, TypeName};
pub use scan::{identifier_end, is_identifier_char, is_identifier_start};

use vstd::string::StrSliceExecFns;
use vstd::string::StringExecFns;

verus! {

/// An annotation defines the type parameters for a function or template.
#[derive(Clone, Debug, Eq, Hash)]
pub enum Annotation {
    /// A literal annotation contains a primitive type name and mode.
    /// The format of the annotation is `<type_name>.<mode>`.
    Literal(Type),
    /// A composite annotation contains its identifier.
    /// The format of the annotation is `<identifier>`.
    Composite(Identifier),
    /// A record annotation contains its identifier of `record`.
    /// The format of the annotation is `record`.
    Record,
}

/// The canonical text of an annotation.
pub open spec fn annotation_text(a: Annotation) -> Seq<char> {
    match a {
        Annotation::Literal(t) => type_text(t),
        Annotation::Composite(id) => id@,
        Annotation::Record => "record"@,
    }
}

/// The record production: the literal reserved string `record`, matched as a
/// prefix; any following text is left unconsumed, as with the composite
/// production.
pub open spec fn record_at(s: Seq<char>) -> bool {
    "record"@.is_prefix_of(s)
}

/// What a successful parse of `s` returns: the three productions are tried
/// in priority order (type, then identifier, then the record keyword), and
/// the first that matches a prefix of `s` decides the variant and the
/// unconsumed remainder.
pub open spec fn parse_ok(s: Seq<char>, a: Annotation, rest: Seq<char>) -> bool {
    match a {
        Annotation::Literal(t) => {
            &&& type_at(s) == Some(t)
            &&& rest == s.skip(type_consumed(t))
        },
        Annotation::Composite(id) => {
            &&& type_at(s) is None
            &&& identifier_at(s) == Some(id@)
            &&& rest == s.skip(id@.len() as int)
        },
        Annotation::Record => {
            &&& type_at(s) is None
            &&& identifier_at(s) is None
            &&& record_at(s)
            &&& rest == s.skip("record"@.len() as int)
        },
    }
}

/// Parsing fails exactly when all three productions fail.
pub open spec fn parse_fails(s: Seq<char>) -> bool {
    &&& type_at(s) is None
    &&& identifier_at(s) is None
    &&& !record_at(s)
}

/// Structural equality on annotations: the variant tags agree and, for
/// literals and composites, so do the payloads.
pub open spec fn annotation_eq(a: &Annotation, b: &Annotation) -> bool {
    match (a, b) {
        (Annotation::Literal(x), Annotation::Literal(y)) => x == y,
        (Annotation::Composite(x), Annotation::Composite(y)) => x@ == y@,
        (Annotation::Record, Annotation::Record) => true,
        _ => false,
    }
}

impl PartialEq for Annotation {
    fn eq(&self, other: &Self) -> (r: bool) {
        match (self, other) {
            (Annotation::Literal(x), Annotation::Literal(y)) => x == y,
            (Annotation::Composite(x), Annotation::Composite(y)) => x == y,
            (Annotation::Record, Annotation::Record) => true,
            _ => false,
        }
    }
}

impl vstd::std_specs::cmp::PartialEqSpecImpl for Annotation {
    open spec fn obeys_eq_spec() -> bool {
        true
    }

    open spec fn eq_spec(&self, other: &Self) -> bool {
        annotation_eq(self, other)
    }
}

impl Annotation {
    /// A composite annotation may only hold a valid identifier; the other
    /// variants carry no constraint.
    pub open spec fn wf(&self) -> bool {
        match self {
            Annotation::Composite(id) => is_valid_identifier(id@),
            _ => true,
        }
    }

    /// Returns `true` if the annotation is a literal.
    /// Returns `false` if the annotation is a composite or record.
    pub fn is_literal(&self) -> (r: bool)
        ensures
            r == (*self is Literal),
    {
        match self {
            Annotation::Literal(_) => true,
            _ => false,
        }
    }

    /// Returns `true` if the annotation is a composite.
    /// Returns `false` if the annotation is a literal or record.
    pub fn is_composite(&self) -> (r: bool)
        ensures
            r == (*self is Composite),
    {
        match self {
            Annotation::Composite(_) => true,
            _ => false,
        }
    }

    /// Returns `true` if the annotation is a record.
    /// Returns `false` if the annotation is a literal or composite.
    pub fn is_record(&self) -> (r: bool)
        ensures
            r == (*self is Record),
    {
        match self {
            Annotation::Record => true,
            _ => false,
        }
    }

    /// Parses a string into an annotation. The three productions are tried
    /// in a fixed priority order — the type production, then the identifier
    /// production, then the `record` keyword — and the first that succeeds
    /// on a prefix of the input decides the result; the unconsumed suffix is
    /// returned to the caller. If all three fail, the parse fails with a
    /// syntax error that keeps the offending input.
    pub fn parse(s: &str) -> (r: Result<(Annotation, &str), SyntaxError>)
        ensures
            match r {
                Ok((a, rest)) => parse_ok(s@, a, rest@) && a.wf(),
                Err(e) => parse_fails(s@) && e@ == s@,
            },
    {
        match Type::parse(s) {
            Ok((t, rest)) => Ok((Annotation::Literal(t), rest)),
            Err(_) => match Identifier::parse(s) {
                Ok((id, rest)) => Ok((Annotation::Composite(id), rest)),
                Err(_) => {
                    let n: usize = s.unicode_len();
                    proof {
                        assert(s@.skip(0) =~= s@);
                        reveal_strlit("record");
                    }
                    if crate::scan::match_keyword(s, 0, "record") {
                        let rest: &str = s.substring_char(6, n);
                        Ok((Annotation::Record, rest))
                    } else {
                        Err(SyntaxError::new(s))
                    }
                },
            },
        }
    }

    /// Prints the annotation as its canonical text: the type as
    /// `<type_name>.<mode>`, the composite as its bare identifier, and the
    /// record as `record`.
    pub fn to_text(&self) -> (r: String)
        ensures
            r@ == annotation_text(*self),
    {
        match self {
            Annotation::Literal(t) => t.to_text(),
            Annotation::Composite(id) => String::from_str(id.as_str()),
            Annotation::Record => String::from_str("record"),
        }
    }
}

/// Exhaustive tagging: every annotation is exactly one of literal, composite
/// and record.
pub proof fn lemma_exhaustive_tagging(a: Annotation)
    ensures
        a is Literal || a is Composite || a is Record,
        !(a is Literal && a is Composite),
        !(a is Literal && a is Record),
        !(a is Composite && a is Record),
{
}

/// Equality: two annotations are equal exactly when their variant tags agree
/// and their payloads agree; distinct variants are never equal, whatever
/// their texts.
pub proof fn lemma_equality(a: Annotation, b: Annotation)
    ensures
        annotation_eq(&a, &b) ==> ((a is Literal <==> b is Literal) && (a is Composite <==> b
            is Composite) && (a is Record <==> b is Record)),
        a matches Annotation::Literal(x) ==> (b matches Annotation::Literal(y) ==> (
        annotation_eq(&a, &b) <==> x == y)),
        a matches Annotation::Composite(x) ==> (b matches Annotation::Composite(y) ==> (
        annotation_eq(&a, &b) <==> x@ == y@)),
        (a is Record && b is Record) ==> annotation_eq(&a, &b),
{
}

/// What a parse accepts is exactly the canonical text of the value it
/// returns, followed by the unconsumed remainder; and the value is well
/// formed. In particular, when the remainder is empty, printing the parsed
/// value reproduces the input.
pub proof fn lemma_parse_splits(s: Seq<char>, a: Annotation, rest: Seq<char>)
    requires
        parse_ok(s, a, rest),
    ensures
        annotation_text(a) + rest == s,
        a.wf(),
{
    reveal_strlit("record");
    reveal_strlit(".");
    match a {
        Annotation::Literal(t) => {
            let name = type_name_text(t.name);
            let k = name.len() as int;
            let ml = mode_text(t.mode).len() as int;
            let consumed = type_consumed(t);
            primitive::lemma_type_name_at_prefix(s);
            scan::lemma_prefix_chars(name, s);
            scan::lemma_prefix_chars(mode_text(t.mode), s.skip(k + 1));
            assert forall|i: int| 0 <= i < ml implies mode_text(t.mode)[i] == s[k + 1 + i] by {
                assert(mode_text(t.mode)[i] == s.skip(k + 1)[i]);
            }
            assert(type_text(t) =~= s.subrange(0, consumed));
            scan::lemma_split_concat(s, consumed);
        },
        Annotation::Composite(id) => {
            identifier::lemma_identifier_at_valid(s);
            scan::lemma_identifier_end_from(s, 0);
            let e = scan::identifier_end(s);
            scan::lemma_split_concat(s, e);
        },
        Annotation::Record => {
            scan::lemma_prefix_chars("record"@, s);
            assert("record"@ =~= s.subrange(0, 6));
            scan::lemma_split_concat(s, 6);
        },
    }
}

/// Parsing the canonical text of a well-formed value yields the value back,
/// with nothing left over.
pub proof fn lemma_round_trip(a: Annotation)
    requires
        a.wf(),
    ensures
        parse_ok(annotation_text(a), a, Seq::<char>::empty()),
{
    reveal_strlit("record");
    let s = annotation_text(a);
    match a {
        Annotation::Literal(t) => {
            primitive::lemma_type_at_text(t, Seq::<char>::empty());
            assert(type_text(t) + Seq::<char>::empty() =~= s);
            assert(type_at(s) == Some(t));
            assert(Seq::<char>::empty() =~= s.skip(type_consumed(t)));
        },
        Annotation::Composite(id) => {
            lemma_composite_not_type(id@);
            scan::lemma_identifier_end_all(s);
            assert(s.subrange(0, s.len() as int) =~= s);
            assert(identifier_at(s) == Some(id@));
            assert(Seq::<char>::empty() =~= s.skip(id@.len() as int));
        },
        Annotation::Record => {
            lemma_record_not_type();
            scan::lemma_identifier_end_all(s);
            assert(s.subrange(0, s.len() as int) =~= s);
            assert(identifier_at(s) is None);
            scan::lemma_prefix_concat("record"@, Seq::<char>::empty());
            assert("record"@ + Seq::<char>::empty() =~= s);
            assert(Seq::<char>::empty() =~= s.skip("record"@.len() as int));
        },
    }
}

/// The type production never matches a valid identifier: identifiers contain
/// no `.`, so the mode suffix the production demands cannot appear.
proof fn lemma_composite_not_type(s: Seq<char>)
    requires
        forall|i: int| 0 <= i < s.len() ==> scan::is_identifier_char(s[i]),
    ensures
        type_at(s) is None,
{
    reveal_strlit(".");
    match primitive::type_name_at(s) {
        Some(n) => {
            primitive::lemma_type_name_at_prefix(s);
            let k = type_name_text(n).len() as int;
            if k < s.len() {
                assert(s[k] != '.');
            }
        },
        None => {
        },
    }
}

/// The type production never matches the bare text `record`: no primitive
/// type name begins it.
proof fn lemma_record_not_type()
    ensures
        type_at("record"@) is None,
{
    reveal_strlit("record");
    reveal_strlit("address");
    reveal_strlit("boolean");
    reveal_strlit("field");
    reveal_strlit("group");
    reveal_strlit("i8");
    reveal_strlit("i16");
    reveal_strlit("i32");
    reveal_strlit("i64");
    reveal_strlit("i128");
    reveal_strlit("scalar");
    reveal_strlit("u8");
    reveal_strlit("u16");
    reveal_strlit("u32");
    reveal_strlit("u64");
    reveal_strlit("u128");
    let s = "record"@;
    scan::lemma_char_differs_not_prefix(type_name_text(TypeName::Address), s, 0);
    scan::lemma_char_differs_not_prefix(type_name_text(TypeName::Boolean), s, 0);
    scan::lemma_char_differs_not_prefix(type_name_text(TypeName::Field), s, 0);
    scan::lemma_char_differs_not_prefix(type_name_text(TypeName::Group), s, 0);
    scan::lemma_char_differs_not_prefix(type_name_text(TypeName::I8), s, 0);
    scan::lemma_char_differs_not_prefix(type_name_text(TypeName::I16), s, 0);
    scan::lemma_char_differs_not_prefix(type_name_text(TypeName::I32), s, 0);
    scan::lemma_char_differs_not_prefix(type_name_text(TypeName::I64), s, 0);
    scan::lemma_char_differs_not_prefix(type_name_text(TypeName::I128), s, 0);
    scan::lemma_char_differs_not_prefix(type_name_text(TypeName::Scalar), s, 0);
    scan::lemma_char_differs_not_prefix(type_name_text(TypeName::U8), s, 0);
    scan::lemma_char_differs_not_prefix(type_name_text(TypeName::U16), s, 0);
    scan::lemma_char_differs_not_prefix(type_name_text(TypeName::U32), s, 0);
    scan::lemma_char_differs_not_prefix(type_name_text(TypeName::U64), s, 0);
    scan::lemma_char_differs_not_prefix(type_name_text(TypeName::U128), s, 0);
}

/// A bare primitive type name, with no mode suffix, is not an annotation:
/// the type production demands the suffix, the identifier production refuses
/// reserved keywords, and the record production matches only `record`.
pub proof fn lemma_bare_type_name_fails(n: TypeName)
    ensures
        parse_fails(type_name_text(n)),
{
    reveal_strlit("record");
    reveal_strlit("address");
    reveal_strlit("boolean");
    reveal_strlit("field");
    reveal_strlit("group");
    reveal_strlit("i8");
    reveal_strlit("i16");
    reveal_strlit("i32");
    reveal_strlit("i64");
    reveal_strlit("i128");
    reveal_strlit("scalar");
    reveal_strlit("u8");
    reveal_strlit("u16");
    reveal_strlit("u32");
    reveal_strlit("u64");
    reveal_strlit("u128");
    reveal_with_fuel(scan::identifier_end_from, 9);
    let s = type_name_text(n);
    assert(s =~= s.subrange(0, s.len() as int));
    primitive::lemma_type_name_at_itself(n, s);
    identifier::lemma_reserved_keywords(s);
    match n {
        TypeName::Address => {
            assert(scan::identifier_end(s) == s.len());
            scan::lemma_char_differs_not_prefix("record"@, s, 0);
        },
        TypeName::Boolean => {
            assert(scan::identifier_end(s) == s.len());
            scan::lemma_char_differs_not_prefix("record"@, s, 0);
        },
        TypeName::Field => {
            assert(scan::identifier_end(s) == s.len());
        },
        TypeName::Group => {
            assert(scan::identifier_end(s) == s.len());
        },
        TypeName::I8 => {
            assert(scan::identifier_end(s) == s.len());
        },
        TypeName::I16 => {
            assert(scan::identifier_end(s) == s.len());
        },
        TypeName::I32 => {
            assert(scan::identifier_end(s) == s.len());
        },
        TypeName::I64 => {
            assert(scan::identifier_end(s) == s.len());
        },
        TypeName::I128 => {
            assert(scan::identifier_end(s) == s.len());
        },
        TypeName::Scalar => {
            assert(scan::identifier_end(s) == s.len());
            scan::lemma_char_differs_not_prefix("record"@, s, 0);
        },
        TypeName::U8 => {
            assert(scan::identifier_end(s) == s.len());
        },
        TypeName::U16 => {
            assert(scan::identifier_end(s) == s.len());
        },
        TypeName::U32 => {
            assert(scan::identifier_end(s) == s.len());
        },
        TypeName::U64 => {
            assert(scan::identifier_end(s) == s.len());
        },
        TypeName::U128 => {
            assert(scan::identifier_end(s) == s.len());
        },
    }
}

/// A parse outcome is unique: two values that both satisfy `parse_ok` on the
/// same input are equal, and so are their remainders.
pub proof fn lemma_parse_deterministic(
    s: Seq<char>,
    a1: Annotation,
    rest1: Seq<char>,
    a2: Annotation,
    rest2: Seq<char>,
)
    requires
        parse_ok(s, a1, rest1),
        parse_ok(s, a2, rest2),
    ensures
        annotation_eq(&a1, &a2),
        rest1 == rest2,
{
}

} // verus!
