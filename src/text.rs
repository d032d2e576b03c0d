use vstd::prelude::*;

verus! {

/// `pat` occurs in `text` as a contiguous run of characters.
pub open spec fn seq_contains(text: Seq<char>, pat: Seq<char>) -> bool {
    exists|i: int| 0 <= i <= text.len() - pat.len() && #[trigger] text.subrange(i, i + pat.len()) == pat
}

/// Whether `pat` occurs in `text` starting at position `start`.
fn occurs_at(text: &[char], pat: &[char], start: usize) -> (r: bool)
    requires
        start + pat@.len() <= text@.len(),
    ensures
        r == (text@.subrange(start as int, start + pat@.len()) == pat@),
{
    let n: usize = text.len();
    let mut k: usize = 0;
    while k < pat.len()
        invariant
            n == text@.len(),
            start + pat@.len() <= text@.len(),
            k <= pat@.len(),
            forall|j: int| 0 <= j < k ==> text@[start + j] == pat@[j],
        decreases pat@.len() - k,
    {
        if text[start + k] != pat[k] {
            assert(text@.subrange(start as int, start + pat@.len())[k as int] != pat@[k as int]);
            return false;
        }
        k = k + 1;
    }
    assert(text@.subrange(start as int, start + pat@.len()) =~= pat@);
    true
}

/// Substring search over characters: `pat` occurs somewhere in `text`.
/// The empty pattern occurs in every text.
pub fn contains_chars(text: &[char], pat: &[char]) -> (r: bool)
    ensures
        r == seq_contains(text@, pat@),
{
    if pat.len() > text.len() {
        return false;
    }
    let last: usize = text.len() - pat.len();
    let mut i: usize = 0;
    loop
        invariant
            last == text@.len() - pat@.len(),
            i <= last,
            forall|s: int| 0 <= s < i ==> #[trigger] text@.subrange(s, s + pat@.len()) != pat@,
        decreases last - i,
    {
        if occurs_at(text, pat, i) {
            return true;
        }
        if i == last {
            return false;
        }
        i = i + 1;
    }
}

} // verus!

verus! {

/// The lowercase form of a text, as std's `str::to_lowercase` gives it.
pub uninterp spec fn lower_of(s: Seq<char>) -> Seq<char>;

/// Relies on `str::to_lowercase`: the lowercase form depends on the
/// characters alone. The result is handed back as its characters.
#[verifier::external_body]
pub(crate) fn lowercase_chars(s: &str) -> (r: Vec<char>)
    ensures
        r@ == lower_of(s@),
{
    s.to_lowercase().chars().collect()
}

} // verus!
