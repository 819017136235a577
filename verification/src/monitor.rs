//! Matching running process names against the configured patterns.
//!
//! The process list itself is read outside this crate; what is decided here
//! is which of the listed names count as matches.

use vstd::prelude::*;
use vstd::string::*;
use crate::text::{chars_contain, chars_of, contains, lowercase, to_lowercase, views};

verus! {

/// `name` contains, ignoring case, one of the non-empty patterns.
pub open spec fn name_matches(name: Seq<char>, patterns: Seq<Seq<char>>) -> bool {
    exists|j: int|
        0 <= j < patterns.len() && lowercase(patterns[j]).len() > 0 && contains(
            lowercase(name),
            #[trigger] lowercase(patterns[j]),
        )
}

/// The names that match, each once, in the order they first appear.
pub open spec fn matched_names(names: Seq<Seq<char>>, patterns: Seq<Seq<char>>) -> Seq<Seq<char>>
    decreases names.len(),
{
    if names.len() == 0 {
        Seq::empty()
    } else {
        let prev = matched_names(names.drop_last(), patterns);
        let n = names.last();
        if name_matches(n, patterns) && !prev.contains(n) {
            prev.push(n)
        } else {
            prev
        }
    }
}

/// Whether `v` holds a string equal to `s`.
pub fn list_contains(v: &Vec<String>, s: &String) -> (res: bool)
    ensures
        res == views(v@).contains(s@),
{
    let mut i: usize = 0;
    while i < v.len()
        invariant
            i <= v.len(),
            forall|k: int| 0 <= k < i ==> v@[k]@ != s@,
        decreases v.len() - i,
    {
        if v[i] == *s {
            proof {
                assert(views(v@)[i as int] == s@);
            }
            return true;
        }
        i += 1;
    }
    proof {
        if views(v@).contains(s@) {
            let k = choose|k: int| 0 <= k < views(v@).len() && views(v@)[k] == s@;
            assert(v@[k]@ == s@);
        }
    }
    false
}

/// `name_lower` contains one of the non-empty strings in `lowered`.
pub open spec fn lowered_matches(name_lower: Seq<char>, lowered: Seq<Seq<char>>) -> bool {
    exists|j: int| 0 <= j < lowered.len() && lowered[j].len() > 0 && contains(name_lower, #[trigger] lowered[j])
}

/// The names whose lowered forms (`names_lower[i]` for `names[i]`) contain
/// one of the non-empty strings in `lowered`, each once, in the order they
/// first appear.
pub open spec fn matched_lowered(
    names: Seq<Seq<char>>,
    names_lower: Seq<Seq<char>>,
    lowered: Seq<Seq<char>>,
) -> Seq<Seq<char>>
    decreases names.len(),
{
    if names.len() == 0 {
        Seq::empty()
    } else {
        let prev = matched_lowered(names.drop_last(), names_lower.take(names.len() - 1), lowered);
        let n = names.last();
        if lowered_matches(names_lower[names.len() - 1], lowered) && !prev.contains(n) {
            prev.push(n)
        } else {
            prev
        }
    }
}

/// The lowercase forms of `s`.
pub open spec fn lowercases(s: Seq<Seq<char>>) -> Seq<Seq<char>> {
    s.map_values(|x: Seq<char>| lowercase(x))
}

/// Matching the lowercase forms is matching without regard to case.
proof fn lemma_lowered_is_matched(names: Seq<Seq<char>>, names_lower: Seq<Seq<char>>, patterns: Seq<Seq<char>>)
    requires
        names_lower == lowercases(names),
    ensures
        matched_lowered(names, names_lower, lowercases(patterns)) == matched_names(names, patterns),
    decreases names.len(),
{
    if names.len() > 0 {
        let n = names.last();
        let lp = lowercases(patterns);
        assert(names_lower.take(names.len() - 1) =~= lowercases(names.drop_last()));
        lemma_lowered_is_matched(names.drop_last(), names_lower.take(names.len() - 1), patterns);
        assert(names_lower[names.len() - 1] == lowercase(n));
        if lowered_matches(lowercase(n), lp) {
            let j = choose|j: int| 0 <= j < lp.len() && lp[j].len() > 0 && contains(lowercase(n), #[trigger] lp[j]);
            assert(lp[j] == lowercase(patterns[j]));
        }
        if name_matches(n, patterns) {
            let j = choose|j: int|
                0 <= j < patterns.len() && lowercase(patterns[j]).len() > 0 && contains(
                    lowercase(n),
                    #[trigger] lowercase(patterns[j]),
                );
            assert(lp[j] == lowercase(patterns[j]));
        }
    }
}

/// Whether `name_lower` contains one of the non-empty strings in `lowered`,
/// whose characters are `pats`.
fn matches_any(name_lower: &Vec<char>, lowered: &Vec<Vec<char>>, pats: Ghost<Seq<Seq<char>>>) -> (res: bool)
    requires
        lowered@.len() == pats@.len(),
        forall|j: int| 0 <= j < lowered@.len() ==> #[trigger] lowered@[j]@ == pats@[j],
    ensures
        res == lowered_matches(name_lower@, pats@),
{
    let mut j: usize = 0;
    while j < lowered.len()
        invariant
            j <= lowered@.len(),
            lowered@.len() == pats@.len(),
            forall|k: int| 0 <= k < lowered@.len() ==> #[trigger] lowered@[k]@ == pats@[k],
            forall|k: int| 0 <= k < j ==> !(pats@[k].len() > 0 && contains(name_lower@, #[trigger] pats@[k])),
        decreases lowered@.len() - j,
    {
        let p = &lowered[j];
        proof {
            assert(lowered@[j as int]@ == pats@[j as int]);
        }
        if p.len() > 0 && chars_contain(name_lower, p) {
            return true;
        }
        j += 1;
    }
    false
}

/// The names whose lowercase forms, `names_lower[i]` for `names[i]`,
/// contain one of the non-empty lowercase patterns in `patterns_lower`; each
/// matching name appears once, in the order of its first occurrence.
pub fn match_lowered(names: &Vec<String>, names_lower: &Vec<String>, patterns_lower: &Vec<String>) -> (res:
    Vec<String>)
    requires
        names_lower.len() == names.len(),
    ensures
        views(res@) == matched_lowered(views(names@), views(names_lower@), views(patterns_lower@)),
{
    let ghost pats = views(patterns_lower@);
    let mut lowered: Vec<Vec<char>> = Vec::new();
    let mut j: usize = 0;
    while j < patterns_lower.len()
        invariant
            j <= patterns_lower.len(),
            pats == views(patterns_lower@),
            lowered@.len() == j,
            forall|k: int| 0 <= k < j ==> #[trigger] lowered@[k]@ == pats[k],
        decreases patterns_lower.len() - j,
    {
        lowered.push(chars_of(patterns_lower[j].as_str()));
        j += 1;
    }
    let mut matched: Vec<String> = Vec::new();
    let mut i: usize = 0;
    while i < names.len()
        invariant
            i <= names.len(),
            names_lower.len() == names.len(),
            pats == views(patterns_lower@),
            lowered@.len() == pats.len(),
            forall|k: int| 0 <= k < lowered@.len() ==> #[trigger] lowered@[k]@ == pats[k],
            views(matched@) == matched_lowered(
                views(names@).take(i as int),
                views(names_lower@).take(i as int),
                pats,
            ),
        decreases names.len() - i,
    {
        let name = &names[i];
        let name_lower = chars_of(names_lower[i].as_str());
        let hit = matches_any(&name_lower, &lowered, Ghost(pats));
        let ghost prev = views(matched@);
        proof {
            let t = views(names@).take(i + 1);
            let tl = views(names_lower@).take(i + 1);
            assert(t.drop_last() == views(names@).take(i as int));
            assert(tl.take(i as int) == views(names_lower@).take(i as int));
            assert(t.last() == name@);
            assert(tl[i as int] == names_lower@[i as int]@);
        }
        if hit && !list_contains(&matched, name) {
            matched.push(name.clone());
            proof {
                assert(views(matched@) =~= prev.push(name@));
            }
        }
        i += 1;
    }
    proof {
        assert(views(names@).take(names.len() as int) == views(names@));
        assert(views(names_lower@).take(names.len() as int) == views(names_lower@));
    }
    matched
}

/// The lowercase forms of `v`.
fn lowercase_all(v: &Vec<String>) -> (res: Vec<String>)
    ensures
        res@.len() == v@.len(),
        views(res@) == lowercases(views(v@)),
{
    let mut res: Vec<String> = Vec::new();
    let mut i: usize = 0;
    while i < v.len()
        invariant
            i <= v.len(),
            res@.len() == i,
            forall|k: int| 0 <= k < i ==> #[trigger] res@[k]@ == lowercase(v@[k]@),
        decreases v.len() - i,
    {
        res.push(to_lowercase(v[i].as_str()));
        i += 1;
    }
    proof {
        assert(views(res@) =~= lowercases(views(v@)));
    }
    res
}

/// The names in `names` that contain one of `patterns`, compared without
/// regard to case; empty patterns match nothing. Each matching name appears
/// once, in the order of its first occurrence.
pub fn match_patterns(names: &Vec<String>, patterns: &Vec<String>) -> (res: Vec<String>)
    ensures
        views(res@) == matched_names(views(names@), views(patterns@)),
{
    let names_lower = lowercase_all(names);
    let patterns_lower = lowercase_all(patterns);
    let res = match_lowered(names, &names_lower, &patterns_lower);
    proof {
        lemma_lowered_is_matched(views(names@), views(names_lower@), views(patterns@));
    }
    res
}

/// Every reported name matches a pattern, and each is one of the scanned
/// names.
pub proof fn lemma_matched_are_matches(names: Seq<Seq<char>>, patterns: Seq<Seq<char>>, k: int)
    requires
        0 <= k < matched_names(names, patterns).len(),
    ensures
        name_matches(matched_names(names, patterns)[k], patterns),
        names.contains(matched_names(names, patterns)[k]),
    decreases names.len(),
{
    let prev = matched_names(names.drop_last(), patterns);
    if k < prev.len() {
        lemma_matched_are_matches(names.drop_last(), patterns, k);
        let w = choose|w: int| 0 <= w < names.drop_last().len() && names.drop_last()[w] == prev[k];
        assert(names[w] == prev[k]);
    } else {
        assert(names[names.len() - 1] == names.last());
    }
}

/// A scanned name that matches a pattern is reported.
pub proof fn lemma_matches_are_reported(names: Seq<Seq<char>>, patterns: Seq<Seq<char>>, i: int)
    requires
        0 <= i < names.len(),
        name_matches(names[i], patterns),
    ensures
        matched_names(names, patterns).contains(names[i]),
    decreases names.len(),
{
    let prev = matched_names(names.drop_last(), patterns);
    if i < names.len() - 1 {
        lemma_matches_are_reported(names.drop_last(), patterns, i);
        let w = choose|w: int| 0 <= w < prev.len() && prev[w] == names[i];
        let cur = matched_names(names, patterns);
        assert(cur[w] == prev[w]);
    } else {
        let cur = matched_names(names, patterns);
        if !prev.contains(names.last()) {
            assert(cur[cur.len() - 1] == names[i]);
        }
    }
}

/// A name is reported exactly when it was scanned and, ignoring case,
/// contains one of the patterns that are not empty.
pub proof fn lemma_reported_iff_contains_pattern(names: Seq<Seq<char>>, patterns: Seq<Seq<char>>, n: Seq<char>)
    ensures
        matched_names(names, patterns).contains(n) <==> names.contains(n) && exists|j: int|
            0 <= j < patterns.len() && lowercase(patterns[j]).len() > 0 && contains(
                lowercase(n),
                #[trigger] lowercase(patterns[j]),
            ),
{
    let m = matched_names(names, patterns);
    if m.contains(n) {
        let k = choose|k: int| 0 <= k < m.len() && m[k] == n;
        lemma_matched_are_matches(names, patterns, k);
    }
    if names.contains(n) && name_matches(n, patterns) {
        let i = choose|i: int| 0 <= i < names.len() && names[i] == n;
        lemma_matches_are_reported(names, patterns, i);
    }
}

/// No name is reported twice.
pub proof fn lemma_matched_distinct(names: Seq<Seq<char>>, patterns: Seq<Seq<char>>, a: int, b: int)
    requires
        0 <= a < b < matched_names(names, patterns).len(),
    ensures
        matched_names(names, patterns)[a] != matched_names(names, patterns)[b],
    decreases names.len(),
{
    let prev = matched_names(names.drop_last(), patterns);
    if b < prev.len() {
        lemma_matched_distinct(names.drop_last(), patterns, a, b);
    } else {
        assert(prev.contains(prev[a]));
    }
}

} // verus!
