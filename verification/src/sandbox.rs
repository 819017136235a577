//! Flatpak sandbox support.
//!
//! Inside a Flatpak sandbox the process cannot see host processes
//! (sandboxes get their own PID namespace); host process names are listed
//! with `flatpak-spawn --host ps -eo comm=` outside this crate, and the
//! listing is read here.

use vstd::prelude::*;
use vstd::string::*;
use crate::text::{chars_of, str_is_empty, string_from_chars, trim, trimmed, views};

verus! {

/// `std::path::Path::exists`: whether something is at `path`. What is on
/// disk is not known here, so nothing is claimed of the result.
#[verifier::external_body]
fn path_exists(path: &str) -> bool {
    std::path::Path::new(path).exists()
}

/// Whether this process is running inside a Flatpak sandbox, which
/// provides `/.flatpak-info`.
pub fn is_flatpak() -> bool {
    path_exists("/.flatpak-info")
}

/// The lines of `s`, split at every newline (the last line may be empty).
pub open spec fn split_lines(s: Seq<char>) -> Seq<Seq<char>>
    decreases s.len(),
{
    if s.len() == 0 {
        seq![Seq::empty()]
    } else {
        let p = split_lines(s.drop_last());
        if s.last() == '\n' {
            p.push(Seq::empty())
        } else {
            p.update(p.len() - 1, p.last().push(s.last()))
        }
    }
}

/// The trimmed lines that are not blank, in order.
pub open spec fn kept_names(lines: Seq<Seq<char>>) -> Seq<Seq<char>>
    decreases lines.len(),
{
    if lines.len() == 0 {
        Seq::empty()
    } else {
        let p = kept_names(lines.drop_last());
        let t = trimmed(lines.last());
        if t.len() > 0 {
            p.push(t)
        } else {
            p
        }
    }
}

/// The process names in the output of `ps -eo comm=`: one per line,
/// trimmed, blank lines skipped.
pub open spec fn process_names_spec(output: Seq<char>) -> Seq<Seq<char>> {
    kept_names(split_lines(output))
}

proof fn lemma_split_lines_nonempty(s: Seq<char>)
    ensures
        split_lines(s).len() >= 1,
    decreases s.len(),
{
    if s.len() > 0 {
        lemma_split_lines_nonempty(s.drop_last());
    }
}

/// The process names listed in the output of `ps -eo comm=`.
pub fn process_names(output: &str) -> (res: Vec<String>)
    ensures
        views(res@) == process_names_spec(output@),
{
    let chars = chars_of(output);
    let n = chars.len();
    let mut names: Vec<String> = Vec::new();
    let mut start: usize = 0;
    let mut i: usize = 0;
    let ghost mut done: Seq<Seq<char>> = Seq::empty();
    proof {
        assert(output@.take(0) =~= Seq::<char>::empty());
        assert(chars@.subrange(0, 0) =~= Seq::<char>::empty());
        assert(split_lines(output@.take(0)) =~= done.push(chars@.subrange(0, 0)));
    }
    while i < n
        invariant
            start <= i <= n,
            n == chars@.len(),
            chars@ == output@,
            split_lines(output@.take(i as int)) == done.push(chars@.subrange(start as int, i as int)),
            views(names@) == kept_names(done),
        decreases n - i,
    {
        let ghost prefix = output@.take(i as int);
        proof {
            assert(output@.take(i + 1).drop_last() == prefix);
            assert(output@.take(i + 1).last() == chars@[i as int]);
            lemma_split_lines_nonempty(prefix);
        }
        if chars[i] == '\n' {
            let line = string_from_chars(&chars, start, i);
            let t = trim(line.as_str());
            let ghost before = views(names@);
            proof {
                let d1 = done.push(chars@.subrange(start as int, i as int));
                assert(d1.drop_last() == done);
            }
            if !str_is_empty(t.as_str()) {
                names.push(t);
                proof {
                    assert(views(names@) =~= before.push(t@));
                }
            }
            proof {
                done = done.push(chars@.subrange(start as int, i as int));
                assert(chars@.subrange(i + 1, i + 1) =~= Seq::<char>::empty());
            }
            start = i + 1;
        } else {
            proof {
                let p = split_lines(prefix);
                assert(p.last() == chars@.subrange(start as int, i as int));
                assert(chars@.subrange(start as int, i + 1) =~= chars@.subrange(start as int, i as int).push(
                    chars@[i as int],
                ));
                assert(p.update(p.len() - 1, p.last().push(chars@[i as int])) =~= done.push(
                    chars@.subrange(start as int, i + 1),
                ));
            }
        }
        i += 1;
    }
    proof {
        assert(output@.take(n as int) == output@);
    }
    let line = string_from_chars(&chars, start, n);
    let t = trim(line.as_str());
    let ghost before = views(names@);
    let ghost all = done.push(chars@.subrange(start as int, n as int));
    proof {
        assert(all.drop_last() == done);
    }
    if !str_is_empty(t.as_str()) {
        names.push(t);
        proof {
            assert(views(names@) =~= before.push(t@));
        }
    }
    names
}

} // verus!
