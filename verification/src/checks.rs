//! The end-to-end checks on the rendered site: the page title and the
//! stylesheet.
use vstd::prelude::*;

verus! {

/// `pattern` occurs in `text` starting at position `i`.
pub open spec fn occurs_at(text: Seq<char>, pattern: Seq<char>, i: int) -> bool {
    0 <= i && i + pattern.len() <= text.len() && text.subrange(i, i + pattern.len()) == pattern
}

/// `pattern` occurs somewhere in `text`.
pub open spec fn contains(text: Seq<char>, pattern: Seq<char>) -> bool {
    exists|i: int| occurs_at(text, pattern, i)
}

/// The characters of a text, in order.
fn chars_of(s: &str) -> (v: Vec<char>)
    ensures
        v@ == s@,
{
    let mut v: Vec<char> = Vec::new();
    for c in it: s.chars()
        invariant
            it.seq() == s@,
            v@ == s@.take(it.index() as int),
    {
        proof {
            assert(s@.take(it.index() + 1) == s@.take(it.index() as int).push(c));
        }
        v.push(c);
    }
    proof {
        assert(s@.take(s@.len() as int) =~= s@);
    }
    v
}

/// Whether `pattern` occurs in `text` at position `i`.
fn matches_at(text: &Vec<char>, pattern: &Vec<char>, i: usize) -> (b: bool)
    requires
        i + pattern@.len() <= text@.len(),
    ensures
        b == occurs_at(text@, pattern@, i as int),
{
    let n = pattern.len();
    let tl = text.len();
    let mut j: usize = 0;
    while j < n
        invariant
            n == pattern@.len(),
            tl == text@.len(),
            i + n <= text@.len(),
            j <= n,
            forall|k: int| 0 <= k < j ==> text@[i + k] == pattern@[k],
        decreases n - j,
    {
        if text[i + j] != pattern[j] {
            proof {
                assert(text@.subrange(i as int, i + n)[j as int] != pattern@[j as int]);
            }
            return false;
        }
        j = j + 1;
    }
    proof {
        assert(text@.subrange(i as int, i + n) =~= pattern@);
    }
    true
}

/// Whether `pattern` occurs somewhere in `text`, as `str::contains` answers it.
pub fn text_contains(text: &str, pattern: &str) -> (b: bool)
    ensures
        b == contains(text@, pattern@),
{
    let t = chars_of(text);
    let p = chars_of(pattern);
    if p.len() == 0 {
        proof {
            assert(t@.subrange(0, 0) =~= p@);
            assert(occurs_at(t@, p@, 0));
        }
        return true;
    }
    if p.len() > t.len() {
        proof {
            assert forall|i: int| !occurs_at(t@, p@, i) by {}
        }
        return false;
    }
    let tl = t.len();
    let last = tl - p.len();
    let mut i: usize = 0;
    while i <= last
        invariant
            last == t@.len() - p@.len(),
            tl == t@.len(),
            p@.len() >= 1,
            i <= last + 1,
            t@ == text@,
            p@ == pattern@,
            forall|k: int| 0 <= k < i ==> !occurs_at(t@, p@, k),
        decreases last + 1 - i,
    {
        if matches_at(&t, &p, i) {
            return true;
        }
        i = i + 1;
    }
    proof {
        assert forall|k: int| !occurs_at(t@, p@, k) by {
            if occurs_at(t@, p@, k) {
                assert(k <= last);
            }
        }
    }
    false
}

/// The failure message when the title lacks the expected text.
pub open spec fn title_failure(title: Seq<char>, expected: Seq<char>) -> Seq<char> {
    "Page title '"@ + title + "' does not contain '"@ + expected + "'"@
}

/// The title check: passes when the page title contains the expected text,
/// and otherwise fails with a message that quotes both.
pub fn check_title_text(title: &str, expected: &str) -> (r: Result<(), String>)
    ensures
        match r {
            Ok(()) => contains(title@, expected@),
            Err(m) => !contains(title@, expected@) && m@ == title_failure(title@, expected@),
        },
{
    if text_contains(title, expected) {
        Ok(())
    } else {
        let m = String::from_str("Page title '").concat(title).concat("' does not contain '").concat(
            expected,
        ).concat("'");
        Err(m)
    }
}

/// The failure message when no stylesheet took effect.
pub open spec fn stylesheet_failure() -> Seq<char> {
    "CSS styles not loaded - background-color is empty"@
}

/// The stylesheet check: passes when the computed background color of the
/// page body is not empty.
pub fn check_background_color(background_color: &str) -> (r: Result<(), String>)
    ensures
        match r {
            Ok(()) => background_color@.len() > 0,
            Err(m) => background_color@.len() == 0 && m@ == stylesheet_failure(),
        },
{
    if background_color.unicode_len() > 0 {
        Ok(())
    } else {
        Err(String::from_str("CSS styles not loaded - background-color is empty"))
    }
}

} // verus!
