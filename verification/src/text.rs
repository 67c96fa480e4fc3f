//! Small questions about text: whether a word occurs in it, and whether two
//! texts are the same.

use vstd::prelude::*;

verus! {

/// Whether `word` occurs in `text` as a run of neighbouring characters.
pub open spec fn has_infix(text: Seq<char>, word: Seq<char>) -> bool {
    exists|at: int| occurs_at(text, word, at)
}

/// Whether `word` stands in `text` from position `at` on.
pub open spec fn occurs_at(text: Seq<char>, word: Seq<char>, at: int) -> bool {
    0 <= at && at + word.len() <= text.len() && text.subrange(at, at + word.len()) == word
}

/// The characters of `text`, in order.
pub fn chars_of(text: &str) -> (chars: Vec<char>)
    ensures
        chars@ == text@,
{
    let mut chars: Vec<char> = Vec::new();
    for c in it: text.chars()
        invariant
            chars@ == it.seq().take(it.index() as int),
            it.seq() == text@,
    {
        chars.push(c);
    }
    chars
}

/// Whether `word` stands in `text` from position `at` on.
fn matches_at(text: &Vec<char>, word: &Vec<char>, at: usize) -> (found: bool)
    requires
        at + word.len() <= text.len(),
    ensures
        found == occurs_at(text@, word@, at as int),
{
    let m: usize = word.len();
    let mut j: usize = 0;
    while j < m
        invariant
            m == word.len(),
            j <= m,
            at + m <= text.len(),
            forall|k: int| 0 <= k < j ==> text@[at + k] == word@[k],
        decreases m - j,
    {
        if text[at + j] != word[j] {
            return false;
        }
        j = j + 1;
    }
    assert(text@.subrange(at as int, at + m) =~= word@);
    true
}

/// Whether `word` occurs in `text`.
pub fn contains_word(text: &str, word: &str) -> (found: bool)
    ensures
        found == has_infix(text@, word@),
{
    let t: Vec<char> = chars_of(text);
    let w: Vec<char> = chars_of(word);
    let n: usize = t.len();
    let m: usize = w.len();
    if m > n {
        return false;
    }
    let last: usize = n - m;
    let mut at: usize = 0;
    while at < last
        invariant
            t@ == text@,
            w@ == word@,
            last + m == t.len(),
            m == w.len(),
            at <= last,
            forall|k: int| 0 <= k < at ==> !occurs_at(t@, w@, k),
        decreases last - at,
    {
        if matches_at(&t, &w, at) {
            return true;
        }
        at = at + 1;
    }
    matches_at(&t, &w, last)
}

/// Whether `a` and `b` hold the same characters.
pub fn same_text(a: &str, b: &str) -> (same: bool)
    ensures
        same == (a@ == b@),
{
    let x: Vec<char> = chars_of(a);
    let y: Vec<char> = chars_of(b);
    if x.len() != y.len() {
        return false;
    }
    let n: usize = x.len();
    let mut i: usize = 0;
    while i < n
        invariant
            n == x.len(),
            n == y.len(),
            i <= n,
            x@ == a@,
            y@ == b@,
            forall|k: int| 0 <= k < i ==> x@[k] == y@[k],
        decreases n - i,
    {
        if x[i] != y[i] {
            return false;
        }
        i = i + 1;
    }
    assert(x@ =~= y@);
    true
}

} // verus!
