//! Substring search over character sequences.

use vstd::prelude::*;

verus! {

/// `pat` stands in `text` at position `i`.
pub open spec fn occurs_at(text: Seq<char>, pat: Seq<char>, i: int) -> bool {
    &&& 0 <= i
    &&& i + pat.len() <= text.len()
    &&& text.subrange(i, i + pat.len()) == pat
}

/// `pat` stands somewhere in `text`.
pub open spec fn contains(text: Seq<char>, pat: Seq<char>) -> bool {
    exists|i: int| occurs_at(text, pat, i)
}

/// `i` is the leftmost position at or after `from` where `pat` stands in `text`.
pub open spec fn is_first_occurrence(text: Seq<char>, pat: Seq<char>, from: int, i: int) -> bool {
    &&& from <= i
    &&& occurs_at(text, pat, i)
    &&& forall|j: int| from <= j < i ==> !occurs_at(text, pat, j)
}

/// The leftmost position at or after `from` where `pat` stands in `text`, if any.
pub open spec fn first_occurrence(text: Seq<char>, pat: Seq<char>, from: int) -> Option<int> {
    if exists|i: int| is_first_occurrence(text, pat, from, i) {
        Some(choose|i: int| is_first_occurrence(text, pat, from, i))
    } else {
        None
    }
}

/// An occurrence at or after `from` gives a leftmost one.
pub proof fn lemma_leftmost_exists(text: Seq<char>, pat: Seq<char>, from: int, k: int)
    requires
        from <= k,
        occurs_at(text, pat, k),
    ensures
        exists|i: int| is_first_occurrence(text, pat, from, i),
    decreases k - from,
{
    if exists|j: int| from <= j < k && occurs_at(text, pat, j) {
        let j = choose|j: int| from <= j < k && occurs_at(text, pat, j);
        lemma_leftmost_exists(text, pat, from, j);
    } else {
        assert(is_first_occurrence(text, pat, from, k));
    }
}

/// `first_occurrence` is the leftmost occurrence at or after `from`, and is
/// `None` exactly when there is none.
pub proof fn lemma_first_occurrence(text: Seq<char>, pat: Seq<char>, from: int)
    ensures
        match first_occurrence(text, pat, from) {
            Some(i) => is_first_occurrence(text, pat, from, i),
            None => forall|j: int| from <= j ==> !occurs_at(text, pat, j),
        },
{
    if first_occurrence(text, pat, from) is None {
        assert forall|j: int| from <= j implies !occurs_at(text, pat, j) by {
            if occurs_at(text, pat, j) {
                lemma_leftmost_exists(text, pat, from, j);
            }
        }
    }
}

/// A position that is a leftmost occurrence is the one `first_occurrence` names.
pub proof fn lemma_found_first(text: Seq<char>, pat: Seq<char>, from: int, i: int)
    requires
        is_first_occurrence(text, pat, from, i),
    ensures
        first_occurrence(text, pat, from) == Some(i),
{
    lemma_first_occurrence(text, pat, from);
}

/// A pattern of one character stands where that character stands.
pub proof fn lemma_single_char_occurrence(text: Seq<char>, c: char, i: int)
    ensures
        occurs_at(text, seq![c], i) <==> 0 <= i < text.len() && text[i] == c,
{
    if 0 <= i < text.len() {
        assert(text.subrange(i, i + 1)[0] == text[i]);
        if text[i] == c {
            assert(text.subrange(i, i + 1) =~= seq![c]);
        }
    }
}

/// The characters of a string, one element each.
pub fn chars_of(s: &str) -> (v: Vec<char>)
    ensures
        v@ == s@,
{
    let mut v: Vec<char> = Vec::new();
    for c in iter: s.chars()
        invariant
            iter.seq() == s@,
            v@ == s@.take(iter.index()),
    {
        v.push(c);
    }
    v
}

/// Whether `pat` stands in `text` at position `i`.
pub fn matches_at(text: &[char], pat: &[char], i: usize) -> (r: bool)
    ensures
        r == occurs_at(text@, pat@, i as int),
{
    if pat.len() > text.len() || i > text.len() - pat.len() {
        return false;
    }
    let mut k: usize = 0;
    while k < pat.len()
        invariant
            i + pat.len() <= text.len(),
            k <= pat.len(),
            forall|j: int| 0 <= j < k ==> text@[i + j] == pat@[j],
        decreases pat.len() - k,
    {
        if text[i + k] != pat[k] {
            return false;
        }
        k += 1;
    }
    assert(text@.subrange(i as int, i + pat.len()) =~= pat@);
    true
}

/// The leftmost position at or after `from` where `pat` stands in `text`.
pub fn find_from(text: &[char], pat: &[char], from: usize) -> (r: Option<usize>)
    ensures
        match r {
            Some(i) => first_occurrence(text@, pat@, from as int) == Some(i as int),
            None => first_occurrence(text@, pat@, from as int) is None,
        },
{
    if from > text.len() {
        proof {
            lemma_first_occurrence(text@, pat@, from as int);
        }
        return None;
    }
    let mut i: usize = from;
    while i < text.len()
        invariant
            from <= i <= text.len(),
            forall|j: int| from <= j < i ==> !occurs_at(text@, pat@, j),
        decreases text.len() - i,
    {
        if matches_at(text, pat, i) {
            proof {
                lemma_found_first(text@, pat@, from as int, i as int);
            }
            return Some(i);
        }
        i += 1;
    }
    if matches_at(text, pat, i) {
        proof {
            lemma_found_first(text@, pat@, from as int, i as int);
        }
        return Some(i);
    }
    proof {
        lemma_first_occurrence(text@, pat@, from as int);
    }
    None
}

/// Whether `pat` stands somewhere in `text`.
pub fn has_substring(text: &[char], pat: &[char]) -> (r: bool)
    ensures
        r == contains(text@, pat@),
{
    let found = find_from(text, pat, 0);
    proof {
        lemma_first_occurrence(text@, pat@, 0);
    }
    found.is_some()
}

} // verus!
