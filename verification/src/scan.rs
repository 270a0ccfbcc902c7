//! Low-level text scanning: identifier character classes, the longest
//! identifier prefix of a string, and literal keyword matching.
use vstd::prelude::*;
use vstd::string::StrSliceExecFns;

verus! {

/// A character that may begin an identifier: an ASCII lowercase letter.
pub open spec fn is_identifier_start(c: char) -> bool {
    'a' as u32 <= c as u32 && c as u32 <= 'z' as u32
}

/// A character that may continue an identifier: an ASCII lowercase letter,
/// an ASCII digit, or an underscore.
pub open spec fn is_identifier_char(c: char) -> bool {
    ||| is_identifier_start(c)
    ||| '0' as u32 <= c as u32 && c as u32 <= '9' as u32
    ||| c == '_'
}

/// The end of the run of identifier characters that starts at position `i`.
pub open spec fn identifier_end_from(s: Seq<char>, i: int) -> int
    decreases s.len() - i
        when 0 <= i <= s.len()
{
    if i < s.len() && is_identifier_char(s[i]) {
        identifier_end_from(s, i + 1)
    } else {
        i
    }
}

/// The length of the longest prefix of `s` made of identifier characters.
pub open spec fn identifier_end(s: Seq<char>) -> int {
    identifier_end_from(s, 0)
}

pub proof fn lemma_identifier_end_from(s: Seq<char>, i: int)
    requires
        0 <= i <= s.len(),
    ensures
        i <= identifier_end_from(s, i) <= s.len(),
        forall|j: int| i <= j < identifier_end_from(s, i) ==> is_identifier_char(s[j]),
        identifier_end_from(s, i) < s.len() ==> !is_identifier_char(s[identifier_end_from(s, i)]),
    decreases s.len() - i,
{
    if i < s.len() && is_identifier_char(s[i]) {
        lemma_identifier_end_from(s, i + 1);
    }
}

/// If every character of `s` is an identifier character, the identifier run
/// covers all of `s`.
pub proof fn lemma_identifier_end_all(s: Seq<char>)
    requires
        forall|j: int| 0 <= j < s.len() ==> is_identifier_char(s[j]),
    ensures
        identifier_end(s) == s.len(),
{
    lemma_identifier_end_from(s, 0);
}

/// A prefix cannot match where some character of it disagrees (or runs past
/// the end of the text).
pub proof fn lemma_char_differs_not_prefix(p: Seq<char>, s: Seq<char>, i: int)
    requires
        0 <= i < p.len(),
        i >= s.len() || p[i] != s[i],
    ensures
        !p.is_prefix_of(s),
{
    if p.is_prefix_of(s) {
        assert(p[i] == s.subrange(0, p.len() as int)[i]);
    }
}

/// A prefix agrees with the text it matches, character by character.
pub proof fn lemma_prefix_chars(p: Seq<char>, s: Seq<char>)
    requires
        p.is_prefix_of(s),
    ensures
        p.len() <= s.len(),
        forall|i: int| 0 <= i < p.len() ==> p[i] == s[i],
{
    assert forall|i: int| 0 <= i < p.len() implies p[i] == s[i] by {
        assert(p[i] == s.subrange(0, p.len() as int)[i]);
    }
}

/// Splitting a sequence at any position and rejoining the parts gives the
/// sequence back.
pub proof fn lemma_split_concat(s: Seq<char>, e: int)
    requires
        0 <= e <= s.len(),
    ensures
        s.subrange(0, e) + s.skip(e) == s,
{
    assert(s.subrange(0, e) + s.skip(e) =~= s);
}

/// Every sequence is a prefix of itself followed by anything.
pub proof fn lemma_prefix_concat(p: Seq<char>, q: Seq<char>)
    ensures
        p.is_prefix_of(p + q),
{
    assert(p =~= (p + q).subrange(0, p.len() as int));
}

pub(crate) fn identifier_start_char(c: char) -> (r: bool)
    ensures
        r == is_identifier_start(c),
{
    let u: u32 = c as u32;
    'a' as u32 <= u && u <= 'z' as u32
}

pub(crate) fn identifier_char(c: char) -> (r: bool)
    ensures
        r == is_identifier_char(c),
{
    let u: u32 = c as u32;
    ('a' as u32 <= u && u <= 'z' as u32) || ('0' as u32 <= u && u <= '9' as u32) || u
        == '_' as u32
}

/// Scans the longest prefix of `s` made of identifier characters.
pub(crate) fn scan_identifier_end(s: &str) -> (e: usize)
    ensures
        e as int == identifier_end(s@),
        e <= s@.len(),
{
    let n: usize = s.unicode_len();
    let mut i: usize = 0;
    loop
        invariant
            i <= n,
            n == s@.len(),
            identifier_end_from(s@, i as int) == identifier_end(s@),
        ensures
            i <= n,
            i as int == identifier_end(s@),
        decreases n - i,
    {
        if i >= n {
            break;
        }
        let c = s.get_char(i);
        if !identifier_char(c) {
            break;
        }
        i += 1;
    }
    i
}

/// Does `kw` occur in `s` as a prefix of the text that starts at `from`?
pub(crate) fn match_keyword(s: &str, from: usize, kw: &str) -> (r: bool)
    requires
        from <= s@.len(),
    ensures
        r == kw@.is_prefix_of(s@.skip(from as int)),
{
    let n: usize = s.unicode_len();
    let k: usize = kw.unicode_len();
    if n - from < k {
        return false;
    }
    let mut i: usize = 0;
    loop
        invariant
            i <= k,
            n == s@.len(),
            k == kw@.len(),
            from + k <= n,
            forall|j: int| 0 <= j < i ==> kw@[j] == s@[from + j],
        ensures
            i <= k,
            i < k ==> kw@[i as int] != s@[from + i],
            i == k ==> forall|j: int| 0 <= j < k ==> kw@[j] == s@[from + j],
        decreases k - i,
    {
        if i >= k {
            break;
        }
        if s.get_char(from + i) != kw.get_char(i) {
            break;
        }
        i += 1;
    }
    if i < k {
        proof {
            let suffix = s@.skip(from as int);
            if kw@.is_prefix_of(suffix) {
                assert(kw@[i as int] == suffix.subrange(0, kw@.len() as int)[i as int]);
            }
        }
        false
    } else {
        proof {
            assert(kw@ =~= s@.skip(from as int).subrange(0, kw@.len() as int));
        }
        true
    }
}

} // verus!
