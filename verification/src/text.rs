//! What the engine needs of std's strings beyond what vstd specifies.

use vstd::prelude::*;
use vstd::std_specs::iter::IteratorSpec;

verus! {

/// Two string slices are equal exactly when they hold the same characters.
pub assume_specification[ <str as PartialEq>::eq ](a: &str, b: &str) -> (res: bool)
    ensures
        res == (a@ == b@),
;

/// Whether two string slices hold the same characters.
pub fn same_text(a: &str, b: &str) -> (res: bool)
    ensures
        res == (a@ == b@),
{
    *a == *b
}

/// The characters of a string slice, in a vector.
pub fn chars_of(s: &str) -> (chars: Vec<char>)
    ensures
        chars@ == s@,
{
    broadcast use vstd::string::group_string_axioms;

    let mut chars: Vec<char> = Vec::new();
    let mut rest = s.chars();
    loop
        invariant_except_break
            rest.remaining() == s@.skip(chars@.len() as int),
        invariant
            chars@.len() <= s@.len(),
            chars@ == s@.take(chars@.len() as int),
        ensures
            chars@ == s@,
        decreases s@.len() - chars@.len(),
    {
        match rest.next() {
            None => {
                proof {
                    assert(s@.take(chars@.len() as int) =~= s@);
                }
                break ;
            },
            Some(c) => {
                proof {
                    let n = chars@.len() as int;
                    assert(c == s@[n]);
                    assert(s@.take(n + 1) =~= s@.take(n).push(c));
                    assert(s@.skip(n).drop_first() =~= s@.skip(n + 1));
                }
                chars.push(c);
            },
        }
    }
    chars
}

/// Whether `needle` stands in `haystack` from the position `at` on.
pub open spec fn occurs_at(haystack: Seq<char>, needle: Seq<char>, at: int) -> bool {
    &&& 0 <= at
    &&& at + needle.len() <= haystack.len()
    &&& haystack.subrange(at, at + needle.len()) == needle
}

/// Whether `needle` stands somewhere in `haystack`.
pub open spec fn occurs_in(haystack: Seq<char>, needle: Seq<char>) -> bool {
    exists|at: int| occurs_at(haystack, needle, at)
}

fn matches_at(haystack: &Vec<char>, needle: &Vec<char>, at: usize) -> (res: bool)
    requires
        at + needle@.len() <= haystack@.len(),
    ensures
        res == occurs_at(haystack@, needle@, at as int),
{
    let mut k: usize = 0;
    let len = haystack.len();
    while k < needle.len()
        invariant
            len == haystack@.len(),
            at + needle@.len() <= haystack@.len(),
            0 <= k <= needle@.len(),
            forall|j: int| 0 <= j < k ==> haystack@[at + j] == needle@[j],
        decreases needle@.len() - k,
    {
        if haystack[at + k] != needle[k] {
            proof {
                assert(haystack@.subrange(at as int, at + needle@.len())[k as int] != needle@[k as int]);
            }
            return false;
        }
        k = k + 1;
    }
    proof {
        assert(haystack@.subrange(at as int, at + needle@.len()) =~= needle@);
    }
    true
}

/// The first position of `haystack`, counted in characters, from which on
/// `needle` stands in it.
pub fn find_text(haystack: &str, needle: &str) -> (res: Option<usize>)
    ensures
        match res {
            Some(at) => occurs_at(haystack@, needle@, at as int) && forall|before: int|
                0 <= before < at ==> !occurs_at(haystack@, needle@, before),
            None => !occurs_in(haystack@, needle@),
        },
{
    let haystack_chars = chars_of(haystack);
    let needle_chars = chars_of(needle);
    if needle_chars.len() > haystack_chars.len() {
        return None;
    }
    let last: usize = haystack_chars.len() - needle_chars.len();
    let mut at: usize = 0;
    loop
        invariant
            haystack_chars@ == haystack@,
            needle_chars@ == needle@,
            last + needle@.len() == haystack@.len(),
            0 <= at <= last,
            forall|before: int| 0 <= before < at ==> !occurs_at(haystack@, needle@, before),
        ensures
            forall|before: int| 0 <= before <= last ==> !occurs_at(haystack@, needle@, before),
        decreases last - at,
    {
        if matches_at(&haystack_chars, &needle_chars, at) {
            return Some(at);
        }
        if at == last {
            break ;
        }
        at = at + 1;
    }
    None
}

/// Whether `needle` stands somewhere in `haystack`.
pub fn contains_text(haystack: &str, needle: &str) -> (res: bool)
    ensures
        res == occurs_in(haystack@, needle@),
{
    find_text(haystack, needle).is_some()
}

} // verus!
