use vstd::prelude::*;

verus! {

/// A 20-byte git object id.
#[derive(Clone, Copy, Debug, Hash)]
pub struct CommitId {
    pub bytes: [u8; 20],
}

impl CommitId {
    pub fn new(bytes: [u8; 20]) -> (r: Self)
        ensures
            r.bytes@ == bytes@,
    {
        CommitId { bytes }
    }

    /// Whether two ids are the same, byte for byte.
    pub fn same(&self, o: &CommitId) -> (r: bool)
        ensures
            r == (self.bytes@ == o.bytes@),
    {
        let mut i: usize = 0;
        while i < 20
            invariant
                i <= 20,
                self.bytes@.len() == 20,
                o.bytes@.len() == 20,
                forall|k: int| 0 <= k < i ==> self.bytes@[k] == o.bytes@[k],
            decreases 20 - i,
        {
            if self.bytes[i] != o.bytes[i] {
                return false;
            }
            i += 1;
        }
        assert(self.bytes@ =~= o.bytes@);
        true
    }
}

/// The lowercase hex digit of `n < 16`.
pub open spec fn hex_digit(n: u8) -> char {
    if n < 10 {
        ((48 + n) as u8) as char
    } else {
        ((87 + n) as u8) as char
    }
}

/// The value of a hex digit (either case), if `c` is one.
pub open spec fn hex_value(c: char) -> Option<u8> {
    if '0' <= c && c <= '9' {
        Some((c as u32 - '0' as u32) as u8)
    } else if 'a' <= c && c <= 'f' {
        Some((c as u32 - 'a' as u32 + 10) as u8)
    } else if 'A' <= c && c <= 'F' {
        Some((c as u32 - 'A' as u32 + 10) as u8)
    } else {
        None
    }
}

/// Two lowercase hex digits per byte, high nibble first.
pub open spec fn hex_of(b: Seq<u8>) -> Seq<char>
    decreases b.len(),
{
    if b.len() == 0 {
        Seq::empty()
    } else {
        hex_of(b.drop_last()) + seq![hex_digit(b.last() / 16), hex_digit(b.last() % 16)]
    }
}

proof fn lemma_hex_of_len(b: Seq<u8>)
    ensures
        hex_of(b).len() == 2 * b.len(),
    decreases b.len(),
{
    if b.len() > 0 {
        lemma_hex_of_len(b.drop_last());
    }
}

proof fn lemma_hex_of_index(b: Seq<u8>, k: int)
    requires
        0 <= k < b.len(),
    ensures
        hex_of(b).len() == 2 * b.len(),
        hex_of(b)[2 * k] == hex_digit(b[k] / 16),
        hex_of(b)[2 * k + 1] == hex_digit(b[k] % 16),
    decreases b.len(),
{
    lemma_hex_of_len(b);
    lemma_hex_of_len(b.drop_last());
    if k < b.len() - 1 {
        lemma_hex_of_index(b.drop_last(), k);
    }
}

proof fn lemma_hex_digit_value(n: u8)
    requires
        n < 16,
    ensures
        hex_value(hex_digit(n)) == Some(n),
{
    assert(n < 10 ==> ((48 + n) as u8) as char as u32 == 48 + n);
    assert(n >= 10 ==> ((87 + n) as u8) as char as u32 == 87 + n);
}

/// The hex form of an id parses back to the same bytes: every character
/// is a hex digit and each pair of digits gives one byte.
pub proof fn lemma_hex_round_trip(b: Seq<u8>)
    ensures
        hex_of(b).len() == 2 * b.len(),
        forall|k: int| 0 <= k < hex_of(b).len() ==> hex_value(#[trigger] hex_of(b)[k]).is_some(),
        forall|k: int|
            0 <= k < b.len() ==> hex_value(hex_of(b)[2 * k])->0 * 16 + hex_value(hex_of(b)[2 * k + 1])->0 == b[k],
{
    lemma_hex_of_len(b);
    assert forall|k: int| 0 <= k < b.len() implies hex_value(hex_of(b)[2 * k])->0 * 16 + hex_value(
        hex_of(b)[2 * k + 1],
    )->0 == b[k] && hex_value(hex_of(b)[2 * k]).is_some() && hex_value(hex_of(b)[2 * k + 1]).is_some() by {
        lemma_hex_of_index(b, k);
        lemma_hex_digit_value(b[k] / 16);
        lemma_hex_digit_value(b[k] % 16);
    }
    assert forall|k: int| 0 <= k < hex_of(b).len() implies hex_value(#[trigger] hex_of(b)[k]).is_some() by {
        let j = k / 2;
        lemma_hex_of_index(b, j);
        lemma_hex_digit_value(b[j] / 16);
        lemma_hex_digit_value(b[j] % 16);
        assert(k == 2 * j || k == 2 * j + 1);
    }
}

fn hex_char(n: u8) -> (c: char)
    requires
        n < 16,
    ensures
        c == hex_digit(n),
        hex_value(c) == Some(n),
{
    if n < 10 {
        (48u8 + n) as char
    } else {
        (87u8 + n) as char
    }
}

fn hex_val(c: char) -> (r: Option<u8>)
    ensures
        r == hex_value(c),
{
    if '0' <= c && c <= '9' {
        Some((c as u32 - '0' as u32) as u8)
    } else if 'a' <= c && c <= 'f' {
        Some((c as u32 - 'a' as u32 + 10) as u8)
    } else if 'A' <= c && c <= 'F' {
        Some((c as u32 - 'A' as u32 + 10) as u8)
    } else {
        None
    }
}

impl CommitId {
    /// The full id: forty lowercase hex digits.
    pub fn to_hex_string(&self) -> (r: String)
        ensures
            r@ == hex_of(self.bytes@),
            r@.len() == 40,
    {
        let mut v: Vec<char> = Vec::new();
        let mut i: usize = 0;
        while i < 20
            invariant
                i <= 20,
                self.bytes@.len() == 20,
                v@ == hex_of(self.bytes@.subrange(0, i as int)),
            decreases 20 - i,
        {
            let b = self.bytes[i];
            v.push(hex_char(b / 16));
            v.push(hex_char(b % 16));
            proof {
                let sub = self.bytes@.subrange(0, i + 1);
                assert(sub.drop_last() =~= self.bytes@.subrange(0, i as int));
                assert(sub.last() == b);
            }
            i += 1;
        }
        proof {
            assert(self.bytes@.subrange(0, 20) =~= self.bytes@);
            lemma_hex_of_len(self.bytes@);
        }
        crate::blame_search::string_of(&v)
    }

    /// The short id: the first seven hex digits.
    pub fn get_short_string(&self) -> (r: String)
        ensures
            r@ == hex_of(self.bytes@).subrange(0, 7),
    {
        let full = crate::text::chars_of(self.to_hex_string().as_str());
        let mut v: Vec<char> = Vec::new();
        let mut i: usize = 0;
        while i < 7
            invariant
                i <= 7,
                full@.len() == 40,
                full@ == hex_of(self.bytes@),
                v@ == full@.subrange(0, i as int),
            decreases 7 - i,
        {
            v.push(full[i]);
            i += 1;
            assert(v@ =~= full@.subrange(0, i as int));
        }
        crate::blame_search::string_of(&v)
    }

    /// Parses forty hex digits (either case) into an id.
    pub fn from_hex(s: &str) -> (r: Option<CommitId>)
        ensures
            r.is_some() <==> (s@.len() == 40 && forall|k: int| 0 <= k < 40 ==> hex_value(#[trigger] s@[k]).is_some()),
            r.is_some() ==> forall|k: int|
                0 <= k < 20 ==> r->0.bytes@[k] == hex_value(s@[2 * k])->0 * 16 + hex_value(s@[2 * k + 1])->0,
    {
        let v = crate::text::chars_of(s);
        if v.len() != 40 {
            return None;
        }
        let mut bytes: [u8; 20] = [0u8; 20];
        let mut i: usize = 0;
        while i < 20
            invariant
                i <= 20,
                v@ == s@,
                v@.len() == 40,
                bytes@.len() == 20,
                forall|k: int| 0 <= k < 2 * i ==> hex_value(#[trigger] s@[k]).is_some(),
                forall|k: int| 0 <= k < i ==> bytes@[k] == hex_value(s@[2 * k])->0 * 16 + hex_value(s@[2 * k + 1])->0,
            decreases 20 - i,
        {
            let hi = hex_val(v[2 * i]);
            let lo = hex_val(v[2 * i + 1]);
            match (hi, lo) {
                (Some(h), Some(l)) => {
                    assert(h < 16 && l < 16);
                    bytes[i] = h * 16 + l;
                },
                _ => {
                    return None;
                },
            }
            i += 1;
        }
        Some(CommitId { bytes })
    }
}

impl PartialEq for CommitId {
    fn eq(&self, o: &CommitId) -> (r: bool) {
        self.same(o)
    }
}

impl Eq for CommitId {}

impl vstd::std_specs::cmp::PartialEqSpecImpl for CommitId {
    open spec fn obeys_eq_spec() -> bool {
        true
    }

    open spec fn eq_spec(&self, o: &CommitId) -> bool {
        self.bytes@ == o.bytes@
    }
}

} // verus!
