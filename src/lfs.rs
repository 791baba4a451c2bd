use vstd::prelude::*;
use crate::blame_search::string_of;
use crate::rebase_todo::{lines_of, skip_ws, skip_ws_from, slice_of, split_lines, word_end, word_end_from};
use crate::text::chars_of;

verus! {

/// The third whitespace-separated word of a line (empty if there is none).
pub open spec fn third_word(l: Seq<char>) -> Seq<char> {
    let a0 = skip_ws(l, 0);
    let e0 = word_end(l, a0);
    let a1 = skip_ws(l, e0);
    let e1 = word_end(l, a1);
    let a2 = skip_ws(l, e1);
    l.subrange(a2, word_end(l, a2))
}

/// The index of the first non-empty sequence of `s` at or after `i`.
pub open spec fn first_non_empty(s: Seq<Seq<char>>, i: int) -> int
    decreases s.len() - i,
{
    if i >= s.len() {
        s.len() as int
    } else if s[i].len() > 0 {
        i
    } else {
        first_non_empty(s, i + 1)
    }
}

/// The files that `git lfs ls-files` lists: the third word of each line,
/// leading empty lines and leading empty names left out.
pub open spec fn lfs_files(out: Seq<char>) -> Seq<Seq<char>> {
    let ls = split_lines(out);
    let rest = ls.subrange(first_non_empty(ls, 0), ls.len() as int);
    let names = rest.map_values(|l: Seq<char>| third_word(l));
    names.subrange(first_non_empty(names, 0), names.len() as int)
}

fn third_word_of(l: &str) -> (r: String)
    ensures
        r@ == third_word(l@),
{
    let v = chars_of(l);
    let a0 = skip_ws_from(&v, 0);
    let e0 = word_end_from(&v, a0);
    let a1 = skip_ws_from(&v, e0);
    let e1 = word_end_from(&v, a1);
    let a2 = skip_ws_from(&v, e1);
    let e2 = word_end_from(&v, a2);
    string_of(&slice_of(&v, a2, e2))
}

/// The files listed in the output of `git lfs ls-files`.
pub fn lfs_files_from_output(out: &str) -> (r: Vec<String>)
    ensures
        r@.map_values(|s: String| s@) == lfs_files(out@),
{
    let lines = lines_of(out);
    let ghost ls = lines@.map_values(|l: String| l@);
    let mut k0: usize = 0;
    while k0 < lines.len() && lines[k0].as_str().is_empty()
        invariant
            ls == lines@.map_values(|l: String| l@),
            k0 <= lines@.len(),
            first_non_empty(ls, 0) == first_non_empty(ls, k0 as int),
        decreases lines@.len() - k0,
    {
        k0 += 1;
    }
    let ghost rest = ls.subrange(k0 as int, ls.len() as int);
    let ghost names = rest.map_values(|l: Seq<char>| third_word(l));
    let mut r: Vec<String> = Vec::new();
    let mut started = false;
    let mut i: usize = k0;
    let ghost mut k1: int = 0;
    while i < lines.len()
        invariant
            ls == lines@.map_values(|l: String| l@),
            k0 <= i <= lines@.len(),
            k0 == first_non_empty(ls, 0),
            rest == ls.subrange(k0 as int, ls.len() as int),
            names == rest.map_values(|l: Seq<char>| third_word(l)),
            0 <= k1 <= i - k0,
            started ==> k1 < i - k0 && first_non_empty(names, 0) == k1,
            !started ==> k1 == i - k0 && first_non_empty(names, 0) == first_non_empty(names, k1),
            r@.map_values(|s: String| s@) == (if started { names.subrange(k1, i - k0) } else { Seq::empty() }),
        decreases lines@.len() - i,
    {
        let w = third_word_of(lines[i].as_str());
        assert(names[i - k0] == w@);
        if started || !w.as_str().is_empty() {
            let ghost before = r@;
            r.push(w);
            proof {
                assert(r@.map_values(|s: String| s@) =~= before.map_values(|s: String| s@).push(names[i - k0]));
                if !started {
                    k1 = i - k0;
                }
                assert(r@.map_values(|s: String| s@) =~= names.subrange(k1, i - k0 + 1));
            }
            started = true;
        } else {
            proof {
                k1 = k1 + 1;
            }
        }
        i += 1;
    }
    proof {
        if !started {
            assert(names.subrange(first_non_empty(names, 0), names.len() as int) =~= Seq::<Seq<char>>::empty());
        }
        assert(r@.map_values(|s: String| s@) =~= lfs_files(out@));
    }
    r
}

/// Whether some listed LFS file starts with `p`.
pub fn is_among_tracked_lfs_files(files: &Vec<String>, p: &str) -> (r: bool)
    ensures
        r == exists|i: int| 0 <= i < files@.len() && #[trigger] files@[i]@.len() >= p@.len()
            && files@[i]@.subrange(0, p@.len() as int) == p@,
{
    let pv = chars_of(p);
    let mut i: usize = 0;
    while i < files.len()
        invariant
            pv@ == p@,
            i <= files@.len(),
            forall|j: int| 0 <= j < i ==> !(#[trigger] files@[j]@.len() >= p@.len() && files@[j]@.subrange(0, p@.len() as int) == p@),
        decreases files@.len() - i,
    {
        let f = chars_of(files[i].as_str());
        if f.len() >= pv.len() {
            if crate::text::matches_at(&f, &pv, 0) {
                assert(f@.subrange(0, p@.len() as int) == p@);
                return true;
            }
        }
        i += 1;
    }
    false
}

} // verus!
