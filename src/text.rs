use vstd::prelude::*;
use vstd::std_specs::iter::IteratorSpec;

verus! {

/// `needle` occurs in `hay` starting at position `i`.
pub open spec fn occurs_at(hay: Seq<char>, needle: Seq<char>, i: int) -> bool {
    0 <= i && i + needle.len() <= hay.len() && hay.subrange(i, i + needle.len()) == needle
}

/// `needle` occurs somewhere in `hay`.
pub open spec fn occurs_in(hay: Seq<char>, needle: Seq<char>) -> bool {
    exists|i: int| occurs_at(hay, needle, i)
}

/// The first occurrence of `needle` in `hay` at or after `from`.
pub open spec fn first_from(hay: Seq<char>, needle: Seq<char>, from: int, r: Option<usize>) -> bool {
    match r {
        Some(i) => from <= i && occurs_at(hay, needle, i as int) && forall|j: int|
            from <= j < i ==> !occurs_at(hay, needle, j),
        None => forall|j: int| from <= j ==> !occurs_at(hay, needle, j),
    }
}

/// The last occurrence of `needle` in `hay` that ends at or before `end`.
pub open spec fn last_before(hay: Seq<char>, needle: Seq<char>, end: int, r: Option<usize>) -> bool {
    match r {
        Some(i) => i + needle.len() <= end && occurs_at(hay, needle, i as int) && forall|j: int|
            i < j && j + needle.len() <= end ==> !occurs_at(hay, needle, j),
        None => forall|j: int| j + needle.len() <= end ==> !occurs_at(hay, needle, j),
    }
}

/// The characters of the string, in order.
pub fn chars_of(s: &str) -> (r: Vec<char>)
    ensures
        r@ == s@,
{
    broadcast use vstd::string::group_string_axioms;

    let mut it = s.chars();
    let mut r: Vec<char> = Vec::new();
    loop
        invariant
            it.obeys_prophetic_iter_laws(),
            it.decrease() is Some,
            r@ + it.remaining() == s@,
        ensures
            it.remaining().len() == 0,
            r@ + it.remaining() == s@,
        decreases it.decrease()->0,
    {
        match it.next() {
            Some(c) => {
                let ghost before = r@;
                r.push(c);
                assert(r@ + it.remaining() =~= before + seq![c] + it.remaining());
            },
            None => {
                break;
            },
        }
    }
    assert(r@ =~= s@);
    r
}

/// Whether `needle` occurs in `hay` at position `i`.
pub fn matches_at(hay: &Vec<char>, needle: &Vec<char>, i: usize) -> (r: bool)
    ensures
        r == occurs_at(hay@, needle@, i as int),
{
    if i > hay.len() || needle.len() > hay.len() - i {
        return false;
    }
    let hl = hay.len();
    let mut k: usize = 0;
    while k < needle.len()
        invariant
            hl == hay@.len(),
            i + needle@.len() <= hay@.len(),
            k <= needle@.len(),
            forall|m: int| 0 <= m < k ==> hay@[i + m] == needle@[m],
        decreases needle@.len() - k,
    {
        if hay[i + k] != needle[k] {
            assert(hay@.subrange(i as int, i + needle@.len())[k as int] != needle@[k as int]);
            return false;
        }
        k += 1;
    }
    assert(hay@.subrange(i as int, i + needle@.len()) =~= needle@);
    true
}

/// The position of the first occurrence of `needle` in `hay` at or after `from`.
pub fn find_from(hay: &Vec<char>, needle: &Vec<char>, from: usize) -> (r: Option<usize>)
    ensures
        first_from(hay@, needle@, from as int, r),
{
    let hl = hay.len();
    if from > hl {
        return None;
    }
    let mut i: usize = from;
    while i < hl
        invariant
            hl == hay@.len(),
            from <= i <= hl,
            forall|j: int| from <= j < i ==> !occurs_at(hay@, needle@, j),
        decreases hl - i,
    {
        if matches_at(hay, needle, i) {
            return Some(i);
        }
        i += 1;
    }
    if matches_at(hay, needle, hl) {
        return Some(hl);
    }
    None
}

/// The position of the last occurrence of `needle` in `hay` that ends at
/// or before `end`.
pub fn rfind_before(hay: &Vec<char>, needle: &Vec<char>, end: usize) -> (r: Option<usize>)
    ensures
        last_before(hay@, needle@, end as int, r),
{
    if needle.len() > end {
        return None;
    }
    let mut i: usize = end - needle.len();
    loop
        invariant
            i + needle@.len() <= end,
            forall|j: int| i < j && j + needle@.len() <= end ==> !occurs_at(hay@, needle@, j),
        decreases i,
    {
        if matches_at(hay, needle, i) {
            return Some(i);
        }
        if i == 0 {
            return None;
        }
        i -= 1;
    }
}

/// Whether `needle` occurs anywhere in `hay`.
pub fn contains_chars(hay: &Vec<char>, needle: &Vec<char>) -> (r: bool)
    ensures
        r == occurs_in(hay@, needle@),
{
    let f = find_from(hay, needle, 0);
    match f {
        Some(i) => true,
        None => {
            assert(forall|j: int| !occurs_at(hay@, needle@, j));
            false
        },
    }
}

/// Appends the characters of `lit` to `v`.
pub(crate) fn push_str(v: &mut Vec<char>, lit: &str)
    ensures
        final(v)@ == old(v)@ + lit@,
{
    let add = chars_of(lit);
    let mut i: usize = 0;
    while i < add.len()
        invariant
            add@ == lit@,
            i <= add@.len(),
            v@ == old(v)@ + add@.subrange(0, i as int),
        decreases add@.len() - i,
    {
        v.push(add[i]);
        i += 1;
        assert(v@ =~= old(v)@ + add@.subrange(0, i as int));
    }
    assert(add@.subrange(0, add@.len() as int) =~= add@);
}

} // verus!
