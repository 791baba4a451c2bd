use vstd::prelude::*;
use unicode_truncate::UnicodeTruncateStr;
use crate::blame_search::string_of;
use crate::text::chars_of;

verus! {

/// What `unicode_truncate` gives for a string and a maximum display width:
/// the longest prefix that fits, and its display width.
pub uninterp spec fn truncation(s: Seq<char>, max_width: nat) -> (Seq<char>, nat);

/// The display width of a whole string.
pub open spec fn display_width(s: Seq<char>) -> nat {
    truncation(s, usize::MAX as nat).1
}

/// Relies on unicode_truncate's `UnicodeTruncateStr::unicode_truncate`:
/// it returns a prefix of the string (it slices `..bidx`) whose display
/// width, also returned, is at most `width`.
#[verifier::external_body]
fn truncate_to_width(s: &str, width: usize) -> (r: (String, usize))
    ensures
        r.0@ == truncation(s@, width as nat).0,
        r.1 as nat == truncation(s@, width as nat).1,
        r.0@.len() <= s@.len(),
        r.0@ == s@.subrange(0, r.0@.len() as int),
        r.1 <= width,
{
    let (t, w) = s.unicode_truncate(width);
    (t.to_string(), w)
}

/// `n` spaces.
pub open spec fn spaces(n: int) -> Seq<char>
    decreases n,
{
    if n <= 0 { Seq::empty() } else { spaces(n - 1).push(' ') }
}

/// A string laid out in `width` columns: padded with spaces up to `width`
/// characters if its display width `shown` fits, else its prefix `cut`
/// followed by `..`.
pub open spec fn aligned(s: Seq<char>, shown: int, cut: Seq<char>, width: int) -> Seq<char> {
    if shown <= width {
        s + spaces(width - s.len())
    } else {
        cut + seq!['.', '.']
    }
}

/// Lays out `s`, whose display width is `shown`, in `width` columns,
/// with `cut` the prefix of `s` that fits in `width - 2` columns.
pub fn align_to_width(s: &str, shown: usize, cut: &str, width: usize) -> (r: String)
    ensures
        r@ == aligned(s@, shown as int, cut@, width as int),
{
    if shown <= width {
        let mut v = chars_of(s);
        let ghost base = v@;
        assert(spaces(0) =~= Seq::<char>::empty());
        assert(v@ =~= base + spaces(0));
        while v.len() < width
            invariant
                base == s@,
                v@ == base + spaces(v@.len() - base.len()),
                v@.len() >= base.len(),
                v@.len() == base.len() || v@.len() <= width,
            decreases width - v@.len(),
        {
            let ghost before = v@;
            v.push(' ');
            assert(v@ =~= base + spaces(v@.len() - base.len()));
        }
        proof {
            if s@.len() >= width {
                assert(spaces(width - s@.len()) =~= Seq::<char>::empty());
                assert(v@.len() == s@.len());
                assert(spaces(v@.len() - base.len()) =~= Seq::<char>::empty());
                assert(v@ =~= s@ + spaces(width - s@.len()));
            }
        }
        string_of(&v)
    } else {
        let mut v = chars_of(cut);
        v.push('.');
        v.push('.');
        assert(v@ =~= cut@ + seq!['.', '.']);
        string_of(&v)
    }
}

/// Pads `s` to `width` characters when it fits in `width` columns, else
/// cuts it to fit `width - 2` columns and appends `..`.
pub fn string_width_align(s: &str, width: usize) -> (r: String)
    ensures
        r@ == aligned(
            s@,
            display_width(s@) as int,
            truncation(s@, (if width >= 2 { width - 2 } else { 0 }) as nat).0,
            width as int,
        ),
{
    let (_, shown) = truncate_to_width(s, usize::MAX);
    let wo_postfix = width.saturating_sub(2);
    let (cut, _) = truncate_to_width(s, wo_postfix);
    align_to_width(s, shown, cut.as_str(), width)
}

/// Width of the author column in a table `width` columns wide.
pub fn get_author_width(width: usize) -> (r: usize)
    ensures
        r == ({
            let w = (if width >= 19 { width - 19 } else { 0 }) / 3;
            if w < 3 { 3 } else if w > 20 { 20 } else { w }
        }),
{
    let w = width.saturating_sub(19) / 3;
    if w < 3 {
        3
    } else if w > 20 {
        20
    } else {
        w
    }
}

/// Number of decimal digits of `n` (none for 0).
pub open spec fn digits(n: nat) -> nat
    decreases n,
{
    if n == 0 { 0 } else { 1 + digits(n / 10) }
}

proof fn lemma_digits_bound(n: nat)
    ensures
        digits(n) <= n,
    decreases n,
{
    if n > 0 {
        lemma_digits_bound(n / 10);
    }
}

pub fn number_of_digits(number: usize) -> (r: usize)
    ensures
        r == digits(number as nat),
{
    let mut rest = number;
    let mut result: usize = 0;
    proof {
        lemma_digits_bound(number as nat);
    }
    while rest > 0
        invariant
            result + digits(rest as nat) == digits(number as nat),
            digits(number as nat) <= number,
        decreases rest,
    {
        rest = rest / 10;
        result += 1;
    }
    result
}

} // verus!
