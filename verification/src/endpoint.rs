//! Transport endpoints, and how an in-process one is told from the others.

use vstd::prelude::*;

verus! {

/// Whether `needle` stands in `haystack` at position `at`.
pub open spec fn occurs_at(haystack: Seq<char>, needle: Seq<char>, at: int) -> bool {
    &&& 0 <= at
    &&& at + needle.len() <= haystack.len()
    &&& haystack.subrange(at, at + needle.len()) == needle
}

/// Whether `needle` stands somewhere in `haystack` as a run of consecutive characters.
pub open spec fn occurs_in(haystack: Seq<char>, needle: Seq<char>) -> bool {
    exists|at: int| occurs_at(haystack, needle, at)
}

/// The marker that an in-process endpoint carries.
pub open spec fn inproc_marker() -> Seq<char> {
    "inproc"@
}

/// Whether an endpoint names an in-process transport: the marker occurs anywhere in it.
pub open spec fn is_inproc(endpoint: Seq<char>) -> bool {
    occurs_in(endpoint, inproc_marker())
}

/// The characters of a string, one by one.
fn characters(text: &str) -> (chars: Vec<char>)
    ensures
        chars@ == text@,
{
    let mut chars: Vec<char> = Vec::new();
    for c in it: text.chars()
        invariant
            it.seq() == text@,
            chars@ == it.seq().take(it.index() as int),
    {
        chars.push(c);
    }
    chars
}

/// Compares the characters of `needle` with those of `haystack` from `at` on.
fn matches_at(haystack: &Vec<char>, needle: &Vec<char>, at: usize) -> (found: bool)
    requires
        at + needle.len() <= haystack.len(),
    ensures
        found == occurs_at(haystack@, needle@, at as int),
{
    let mut j: usize = 0;
    while j < needle.len()
        invariant
            j <= needle.len(),
            at + needle.len() <= haystack.len(),
            forall|t: int| 0 <= t < j ==> haystack[at + t] == needle[t],
        decreases needle.len() - j,
    {
        if haystack[at + j] != needle[j] {
            proof {
                let window = haystack@.subrange(at as int, at + needle.len());
                assert(window[j as int] == haystack[at + j]);
            }
            return false;
        }
        j = j + 1;
    }
    assert(haystack@.subrange(at as int, at + needle.len()) =~= needle@);
    true
}

/// Searches `haystack` for `needle`, trying every position from the left.
pub fn contains(haystack: &str, needle: &str) -> (found: bool)
    ensures
        found == occurs_in(haystack@, needle@),
{
    let text = characters(haystack);
    let pattern = characters(needle);
    if pattern.len() > text.len() {
        return false;
    }
    let last = text.len() - pattern.len();
    let mut at: usize = 0;
    loop
        invariant
            text@ == haystack@,
            pattern@ == needle@,
            at <= last,
            last == text.len() - pattern.len(),
            forall|k: int| 0 <= k < at ==> !occurs_at(haystack@, needle@, k),
        decreases last - at,
    {
        if matches_at(&text, &pattern, at) {
            return true;
        }
        if at == last {
            return false;
        }
        at = at + 1;
    }
}

/// Tells whether a connection with this endpoint is in-process, and so needs no handshake.
pub fn is_inproc_endpoint(endpoint: &str) -> (inproc: bool)
    ensures
        inproc == is_inproc(endpoint@),
{
    contains(endpoint, "inproc")
}

} // verus!
