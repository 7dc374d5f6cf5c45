//! The button finder: first-match lookup of a visible-text substring over a
//! list of page elements, each given by its extracted inner text (`None` when
//! extraction failed; such an element never matches).

use vstd::prelude::*;

verus! {

/// The pattern occurs in `text` starting at position `i`.
pub open spec fn contains_at(text: Seq<char>, pat: Seq<char>, i: int) -> bool {
    0 <= i && i + pat.len() <= text.len() && text.subrange(i, i + pat.len()) == pat
}

/// The pattern occurs somewhere in `text`.
pub open spec fn text_contains(text: Seq<char>, pat: Seq<char>) -> bool {
    exists|i: int| contains_at(text, pat, i)
}

/// An element matches when its text was extracted and contains the pattern.
/// An element whose text extraction failed never matches.
pub open spec fn entry_matches(entry: Option<String>, pat: Seq<char>) -> bool {
    match entry {
        Some(t) => text_contains(t@, pat),
        None => false,
    }
}

/// The index of the first matching element, if any: the finder's model.
pub open spec fn find_first(texts: Seq<Option<String>>, pat: Seq<char>) -> Option<int>
    decreases texts.len(),
{
    if texts.len() == 0 {
        None
    } else if entry_matches(texts[0], pat) {
        Some(0)
    } else {
        match find_first(texts.drop_first(), pat) {
            Some(i) => Some(i + 1),
            None => None,
        }
    }
}

/// What the button finder returns for the given inputs.
pub open spec fn finder_returns(texts: Seq<Option<String>>, pat: Seq<char>, r: Option<usize>) -> bool {
    match r {
        Some(i) => find_first(texts, pat) == Some(i as int),
        None => find_first(texts, pat) is None,
    }
}

/// `find_first` names exactly the first matching index: a match at the result,
/// none before it, and none anywhere when the result is absence.
pub proof fn lemma_find_first_characterizes(texts: Seq<Option<String>>, pat: Seq<char>)
    ensures
        match find_first(texts, pat) {
            Some(i) => 0 <= i < texts.len() && entry_matches(texts[i], pat)
                && (forall|j: int| 0 <= j < i ==> !entry_matches(texts[j], pat)),
            None => forall|j: int| 0 <= j < texts.len() ==> !entry_matches(texts[j], pat),
        },
    decreases texts.len(),
{
    if texts.len() == 0 {
    } else if entry_matches(texts[0], pat) {
    } else {
        let tail = texts.drop_first();
        lemma_find_first_characterizes(tail, pat);
        assert(forall|k: int| 0 <= k < tail.len() ==> tail[k] == texts[k + 1]);
        match find_first(tail, pat) {
            Some(i) => {
                assert(entry_matches(texts[i + 1], pat));
                assert forall|j: int| 0 <= j < i + 1 implies !entry_matches(texts[j], pat) by {
                    if j > 0 {
                        assert(!entry_matches(tail[j - 1], pat));
                    }
                }
            },
            None => {
                assert forall|j: int| 0 <= j < texts.len() implies !entry_matches(texts[j], pat) by {
                    if j > 0 {
                        assert(!entry_matches(tail[j - 1], pat));
                    }
                }
            },
        }
    }
}

/// A match at `i` with none before it pins `find_first` down to `i`.
pub proof fn lemma_find_first_hit(texts: Seq<Option<String>>, pat: Seq<char>, i: int)
    requires
        0 <= i < texts.len(),
        entry_matches(texts[i], pat),
        forall|j: int| 0 <= j < i ==> !entry_matches(texts[j], pat),
    ensures
        find_first(texts, pat) == Some(i),
{
    lemma_find_first_characterizes(texts, pat);
    match find_first(texts, pat) {
        Some(k) => {
            if k < i {
                assert(!entry_matches(texts[k], pat));
            } else if i < k {
                assert(!entry_matches(texts[i], pat));
            }
        },
        None => {
            assert(!entry_matches(texts[i], pat));
        },
    }
}

/// No match anywhere pins `find_first` down to absence.
pub proof fn lemma_find_first_none(texts: Seq<Option<String>>, pat: Seq<char>)
    requires
        forall|j: int| 0 <= j < texts.len() ==> !entry_matches(texts[j], pat),
    ensures
        find_first(texts, pat) is None,
{
    lemma_find_first_characterizes(texts, pat);
    match find_first(texts, pat) {
        Some(k) => {
            assert(!entry_matches(texts[k], pat));
        },
        None => {},
    }
}

/// The pattern occurs in `text` starting at `i`, decided character by character.
fn matches_at(text: &str, pat: &str, i: usize) -> (r: bool)
    requires
        i + pat@.len() <= text@.len(),
        i + pat@.len() <= usize::MAX,
    ensures
        r == contains_at(text@, pat@, i as int),
{
    let m = pat.unicode_len();
    let mut j: usize = 0;
    while j < m
        invariant
            m == pat@.len(),
            i + m <= text@.len(),
            i + m <= usize::MAX,
            0 <= j <= m,
            forall|k: int| 0 <= k < j ==> text@[i + k] == pat@[k],
        decreases m - j,
    {
        let tc = text.get_char(i + j);
        let pc = pat.get_char(j);
        if tc != pc {
            proof {
                if contains_at(text@, pat@, i as int) {
                    assert(text@.subrange(i as int, i + m) == pat@);
                    assert(text@.subrange(i as int, i + m)[j as int] == text@[i + j]);
                }
            }
            return false;
        }
        j += 1;
    }
    proof {
        assert(text@.subrange(i as int, i + m) =~= pat@);
    }
    true
}

/// Substring containment on the characters the page provided: no case
/// normalization, no tie-break beyond existence.
pub fn contains_text(text: &str, pat: &str) -> (r: bool)
    ensures
        r == text_contains(text@, pat@),
{
    let n = text.unicode_len();
    let m = pat.unicode_len();
    if m == 0 {
        proof {
            assert(text@.subrange(0, 0) =~= pat@);
            assert(contains_at(text@, pat@, 0));
        }
        return true;
    }
    if m > n {
        proof {
            assert forall|i: int| !contains_at(text@, pat@, i) by {}
        }
        return false;
    }
    let mut i: usize = 0;
    while i <= n - m
        invariant
            n == text@.len(),
            m == pat@.len(),
            1 <= m <= n,
            0 <= i <= n - m + 1,
            forall|k: int| 0 <= k < i ==> !contains_at(text@, pat@, k),
        decreases n - m + 1 - i,
    {
        if matches_at(text, pat, i) {
            proof {
                assert(contains_at(text@, pat@, i as int));
            }
            return true;
        }
        i += 1;
    }
    proof {
        assert forall|k: int| !contains_at(text@, pat@, k) by {
            if 0 <= k <= n - m {
                assert(!contains_at(text@, pat@, k));
            }
        }
    }
    false
}

/// Returns the first element (in order) whose extracted text contains the
/// pattern; absence when none matches. An element whose text extraction
/// failed is skipped, not fatal.
pub fn get_button(texts: &Vec<Option<String>>, pat: &str) -> (r: Option<usize>)
    ensures
        finder_returns(texts@, pat@, r),
{
    let n = texts.len();
    let mut i: usize = 0;
    while i < n
        invariant
            n == texts@.len(),
            0 <= i <= n,
            forall|j: int| 0 <= j < i ==> !entry_matches(texts@[j], pat@),
        decreases n - i,
    {
        let hit = match &texts[i] {
            Some(t) => contains_text(t.as_str(), pat),
            None => false,
        };
        if hit {
            proof {
                lemma_find_first_hit(texts@, pat@, i as int);
            }
            return Some(i);
        }
        i += 1;
    }
    proof {
        lemma_find_first_none(texts@, pat@);
    }
    None
}

/// The finder is a function of its inputs: two results for the same element
/// texts and the same pattern are the same. With the finder free of side
/// effects, calling it twice with the same inputs returns the same result.
pub proof fn lemma_finder_deterministic(
    texts: Seq<Option<String>>,
    pat: Seq<char>,
    r1: Option<usize>,
    r2: Option<usize>,
)
    requires
        finder_returns(texts, pat, r1),
        finder_returns(texts, pat, r2),
    ensures
        r1 == r2,
{
    match (r1, r2) {
        (Some(i1), Some(i2)) => {
            assert(i1 as int == i2 as int);
        },
        (Some(i1), None) => {
            assert(false);
        },
        (None, Some(i2)) => {
            assert(false);
        },
        (None, None) => {},
    }
}

/// An element that matches nothing — in particular one whose text extraction
/// failed — does not alter which of the other elements is found: the result on
/// the full list is the result without that element, its index shifted past it.
pub proof fn lemma_unmatched_entry_skipped(texts: Seq<Option<String>>, pat: Seq<char>, k: int)
    requires
        0 <= k < texts.len(),
        !entry_matches(texts[k], pat),
    ensures
        find_first(texts, pat) == (match find_first(texts.remove(k), pat) {
            Some(i) => (if i < k { Some(i) } else { Some(i + 1) }),
            None => None::<int>,
        }),
{
    let s = texts.remove(k);
    assert(forall|j: int| 0 <= j < k ==> s[j] == texts[j]);
    assert(forall|j: int| k <= j < s.len() ==> s[j] == texts[j + 1]);
    lemma_find_first_characterizes(s, pat);
    match find_first(s, pat) {
        Some(i) => {
            if i < k {
                assert(entry_matches(texts[i], pat));
                lemma_find_first_hit(texts, pat, i);
            } else {
                assert(entry_matches(texts[i + 1], pat));
                assert forall|j: int| 0 <= j < i + 1 implies !entry_matches(texts[j], pat) by {
                    if j < k {
                        assert(s[j] == texts[j]);
                    } else if j == k {
                    } else {
                        assert(s[j - 1] == texts[j]);
                    }
                }
                lemma_find_first_hit(texts, pat, i + 1);
            }
        },
        None => {
            assert forall|j: int| 0 <= j < texts.len() implies !entry_matches(texts[j], pat) by {
                if j < k {
                    assert(s[j] == texts[j]);
                } else if j == k {
                } else {
                    assert(s[j - 1] == texts[j]);
                }
            }
            lemma_find_first_none(texts, pat);
        },
    }
}

} // verus!
