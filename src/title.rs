//! Choosing the target window by its title.
use vstd::prelude::*;
use vstd::string::StrSliceExecFns;

verus! {

/// The text that the title of a window to capture contains.
pub const TARGET_TITLE: &'static str = "Fightcade FBNeo";

/// `pat` stands in `text` at position `i`.
pub open spec fn occurs_at(text: Seq<char>, pat: Seq<char>, i: int) -> bool {
    0 <= i && i + pat.len() <= text.len() && text.subrange(i, i + pat.len()) == pat
}

/// `pat` stands somewhere in `text`.
pub open spec fn contains_seq(text: Seq<char>, pat: Seq<char>) -> bool {
    exists|i: int| occurs_at(text, pat, i)
}

/// Whether `pat` stands in `text` at position `i`.
fn matches_at(text: &str, pat: &str, tl: usize, pl: usize, i: usize) -> (r: bool)
    requires
        tl == text@.len(),
        pl == pat@.len(),
        i + pl <= tl,
    ensures
        r == occurs_at(text@, pat@, i as int),
{
    let mut j: usize = 0;
    while j < pl
        invariant
            tl == text@.len(),
            pl == pat@.len(),
            i + pl <= tl,
            j <= pl,
            forall|k: int| 0 <= k < j ==> text@[i + k] == pat@[k],
        decreases pl - j,
    {
        if text.get_char(i + j) != pat.get_char(j) {
            assert(text@.subrange(i as int, i + pl)[j as int] != pat@[j as int]);
            return false;
        }
        j = j + 1;
    }
    assert(text@.subrange(i as int, i + pl) =~= pat@);
    true
}

/// Whether `pat` stands anywhere in `text`.
pub fn title_contains(text: &str, pat: &str) -> (r: bool)
    ensures
        r == contains_seq(text@, pat@),
{
    let tl = text.unicode_len();
    let pl = pat.unicode_len();
    if pl > tl {
        return false;
    }
    if pl == 0 {
        assert(text@.subrange(0, 0) =~= pat@);
        assert(occurs_at(text@, pat@, 0));
        return true;
    }
    let mut i: usize = 0;
    while i <= tl - pl
        invariant
            tl == text@.len(),
            pl == pat@.len(),
            0 < pl <= tl,
            i <= tl - pl + 1,
            forall|k: int| 0 <= k < i ==> !occurs_at(text@, pat@, k),
        decreases tl - pl + 1 - i,
    {
        if matches_at(text, pat, tl, pl, i) {
            return true;
        }
        i = i + 1;
    }
    false
}

/// Whether a window with this title is one to capture.
pub fn is_target_title(title: &str) -> (r: bool)
    ensures
        r == contains_seq(title@, TARGET_TITLE@),
{
    title_contains(title, TARGET_TITLE)
}

/// The positions, in order, of the titles that mark a window to capture.
pub fn select_targets(titles: &Vec<String>) -> (r: Vec<usize>)
    ensures
        forall|k: int| 0 <= k < r@.len() ==> (#[trigger] r@[k] as int) < titles@.len(),
        forall|k: int, m: int| 0 <= k < m < r@.len() ==> r@[k] < r@[m],
        forall|i: int|
            0 <= i < titles@.len() ==> (contains_seq(titles@[i]@, TARGET_TITLE@) <==> r@.contains(
                i as usize,
            )),
{
    let mut out: Vec<usize> = Vec::new();
    let mut i: usize = 0;
    while i < titles.len()
        invariant
            i <= titles@.len(),
            forall|k: int| 0 <= k < out@.len() ==> (#[trigger] out@[k] as int) < i,
            forall|k: int, m: int| 0 <= k < m < out@.len() ==> out@[k] < out@[m],
            forall|j: int|
                0 <= j < i ==> (contains_seq(titles@[j]@, TARGET_TITLE@) <==> out@.contains(
                    j as usize,
                )),
        decreases titles@.len() - i,
    {
        let ghost before = out@;
        if is_target_title(titles[i].as_str()) {
            out.push(i);
            assert(out@[out@.len() - 1] == i);
        }
        assert forall|j: int| 0 <= j <= i implies (contains_seq(titles@[j]@, TARGET_TITLE@)
            <==> out@.contains(j as usize)) by {
            if out@.contains(j as usize) {
                let k = choose|k: int| 0 <= k < out@.len() && out@[k] == j as usize;
                if k < before.len() {
                    assert(before[k] == out@[k]);
                }
            }
            if j < i && before.contains(j as usize) {
                let k = choose|k: int| 0 <= k < before.len() && before[k] == j as usize;
                assert(out@[k] == before[k]);
            }
        }
        i = i + 1;
    }
    out
}

} // verus!
