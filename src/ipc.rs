use vstd::prelude::*;

verus! {

/// Size of the shared-memory region.
pub const SHMEM_SIZE: usize = 4096;

/// Size of the length field in front of the string.
pub const LEN_SIZE: usize = 8;

/// Why a string cannot be handed over.
#[derive(Clone, Copy, Debug, PartialEq, Eq, Structural)]
pub enum IpcError {
    /// the string does not fit behind the two events
    StringTooBig,
    /// the region is not laid out as expected
    BadRegion,
}

/// The layout of the shared region: the "ready" event, the "shutdown"
/// event, then the length of the string and its bytes.
#[derive(Clone, Copy, Debug, PartialEq, Eq, Structural)]
pub struct IpcLayout {
    pub ready_size: usize,
    pub shutdown_size: usize,
}

/// The eight little-endian bytes of `x`.
pub open spec fn le_bytes(x: u64) -> Seq<u8> {
    seq![
        (x & 0xff) as u8,
        ((x >> 8) & 0xff) as u8,
        ((x >> 16) & 0xff) as u8,
        ((x >> 24) & 0xff) as u8,
        ((x >> 32) & 0xff) as u8,
        ((x >> 40) & 0xff) as u8,
        ((x >> 48) & 0xff) as u8,
        ((x >> 56) & 0xff) as u8,
    ]
}

/// The number whose little-endian bytes are `b[0..8]`.
pub open spec fn from_le(b: Seq<u8>) -> u64 {
    (b[0] as u64) | ((b[1] as u64) << 8) | ((b[2] as u64) << 16) | ((b[3] as u64) << 24) | ((b[4] as u64) << 32)
        | ((b[5] as u64) << 40) | ((b[6] as u64) << 48) | ((b[7] as u64) << 56)
}

/// Reading back the bytes of a number gives the number.
pub proof fn lemma_le_round_trip(x: u64)
    ensures
        from_le(le_bytes(x)) == x,
{
    let b = le_bytes(x);
    let (b0, b1, b2, b3, b4, b5, b6, b7) = (b[0], b[1], b[2], b[3], b[4], b[5], b[6], b[7]);
    assert(b0 == (x & 0xff) as u8);
    assert(b7 == ((x >> 56) & 0xff) as u8);
    assert((((x & 0xff) as u8) as u64) | (((((x >> 8) & 0xff) as u8) as u64) << 8) | (((((x >> 16) & 0xff) as u8) as u64) << 16)
        | (((((x >> 24) & 0xff) as u8) as u64) << 24) | (((((x >> 32) & 0xff) as u8) as u64) << 32)
        | (((((x >> 40) & 0xff) as u8) as u64) << 40) | (((((x >> 48) & 0xff) as u8) as u64) << 48)
        | (((((x >> 56) & 0xff) as u8) as u64) << 56) == x) by (bit_vector);
}

/// The string a well-formed region holds behind `off`: the bytes after
/// the length field, as many as it says.
pub open spec fn region_str(region: Seq<u8>, off: int) -> Seq<u8> {
    let len = from_le(region.subrange(off, off + 8)) as int;
    region.subrange(off + 8, off + 8 + len)
}

impl IpcLayout {
    /// Where the length field starts.
    pub open spec fn offset(&self) -> int {
        self.ready_size + self.shutdown_size
    }

    /// The two events and the length field fit in the region.
    pub open spec fn wf(&self) -> bool {
        self.offset() + LEN_SIZE <= SHMEM_SIZE
    }

    /// The position of the length field.
    pub fn str_offset(&self) -> (r: usize)
        requires
            self.wf(),
        ensures
            r == self.offset(),
    {
        self.ready_size + self.shutdown_size
    }

    /// How many bytes the string may have.
    pub fn capacity(&self) -> (r: usize)
        requires
            self.wf(),
        ensures
            r == SHMEM_SIZE - self.offset() - LEN_SIZE,
    {
        SHMEM_SIZE - self.str_offset() - LEN_SIZE
    }

    /// Writes the string `s` into the region behind the two events: its
    /// length, then its bytes. Fails, leaving the region alone, when it
    /// does not fit.
    pub fn set_str(&self, region: &mut Vec<u8>, s: &Vec<u8>) -> (r: Result<(), IpcError>)
        requires
            self.wf(),
            old(region)@.len() == SHMEM_SIZE,
        ensures
            final(region)@.len() == SHMEM_SIZE,
            s@.len() > SHMEM_SIZE - self.offset() - LEN_SIZE ==> r == Err::<(), IpcError>(IpcError::StringTooBig)
                && final(region)@ == old(region)@,
            s@.len() <= SHMEM_SIZE - self.offset() - LEN_SIZE ==> r is Ok && from_le(
                final(region)@.subrange(self.offset(), self.offset() + 8),
            ) == s@.len() && region_str(final(region)@, self.offset()) == s@ && final(region)@.subrange(
                0,
                self.offset(),
            ) == old(region)@.subrange(0, self.offset()),
    {
        if s.len() > self.capacity() {
            return Err(IpcError::StringTooBig);
        }
        let off = self.str_offset();
        let ghost r0 = region@;
        let len = s.len() as u64;
        let bytes: [u8; 8] = [
            (len & 0xff) as u8,
            ((len >> 8) & 0xff) as u8,
            ((len >> 16) & 0xff) as u8,
            ((len >> 24) & 0xff) as u8,
            ((len >> 32) & 0xff) as u8,
            ((len >> 40) & 0xff) as u8,
            ((len >> 48) & 0xff) as u8,
            ((len >> 56) & 0xff) as u8,
        ];
        assert(bytes@ =~= le_bytes(len));
        let mut k: usize = 0;
        while k < 8
            invariant
                k <= 8,
                off + 8 <= SHMEM_SIZE,
                region@.len() == SHMEM_SIZE,
                bytes@ == le_bytes(len),
                forall|j: int| 0 <= j < off ==> region@[j] == r0[j],
                forall|j: int| 0 <= j < k ==> region@[off + j] == bytes@[j],
            decreases 8 - k,
        {
            region.set(off + k, bytes[k]);
            k += 1;
        }
        let mut i: usize = 0;
        while i < s.len()
            invariant
                i <= s@.len(),
                off + 8 + s@.len() <= SHMEM_SIZE,
                region@.len() == SHMEM_SIZE,
                bytes@ == le_bytes(len),
                forall|j: int| 0 <= j < off ==> region@[j] == r0[j],
                forall|j: int| 0 <= j < 8 ==> region@[off + j] == bytes@[j],
                forall|j: int| 0 <= j < i ==> region@[off + 8 + j] == s@[j],
            decreases s@.len() - i,
        {
            region.set(off + 8 + i, s[i]);
            i += 1;
        }
        proof {
            assert(region@.subrange(off as int, off + 8) =~= le_bytes(len));
            lemma_le_round_trip(len);
            assert(region_str(region@, off as int) =~= s@);
            assert(region@.subrange(0, off as int) =~= r0.subrange(0, off as int));
        }
        Ok(())
    }

    /// Reads the string behind the two events: as many bytes as the length
    /// field says, after it. Fails when the length runs past the region.
    pub fn get_str(&self, region: &Vec<u8>) -> (r: Result<Vec<u8>, IpcError>)
        requires
            self.wf(),
            region@.len() == SHMEM_SIZE,
        ensures
            ({
                let len = from_le(region@.subrange(self.offset(), self.offset() + 8)) as int;
                &&& len <= SHMEM_SIZE - self.offset() - LEN_SIZE ==> r is Ok && r->Ok_0@ == region_str(
                    region@,
                    self.offset(),
                )
                &&& len > SHMEM_SIZE - self.offset() - LEN_SIZE ==> r == Err::<Vec<u8>, IpcError>(IpcError::BadRegion)
            }),
    {
        let off = self.str_offset();
        let b = [
            region[off],
            region[off + 1],
            region[off + 2],
            region[off + 3],
            region[off + 4],
            region[off + 5],
            region[off + 6],
            region[off + 7],
        ];
        let len: u64 = (b[0] as u64) | ((b[1] as u64) << 8) | ((b[2] as u64) << 16) | ((b[3] as u64) << 24)
            | ((b[4] as u64) << 32) | ((b[5] as u64) << 40) | ((b[6] as u64) << 48) | ((b[7] as u64) << 56);
        proof {
            let sub = region@.subrange(off as int, off + 8);
            assert(sub[0] == b[0] && sub[1] == b[1] && sub[2] == b[2] && sub[3] == b[3]);
            assert(sub[4] == b[4] && sub[5] == b[5] && sub[6] == b[6] && sub[7] == b[7]);
            assert(len == from_le(sub));
        }
        if len > self.capacity() as u64 {
            return Err(IpcError::BadRegion);
        }
        let n = len as usize;
        let from = off + LEN_SIZE;
        let mut out: Vec<u8> = Vec::new();
        let mut i: usize = 0;
        while i < n
            invariant
                i <= n,
                from + n <= SHMEM_SIZE,
                region@.len() == SHMEM_SIZE,
                out@ == region@.subrange(from as int, from + i),
            decreases n - i,
        {
            out.push(region[from + i]);
            i += 1;
            assert(out@ =~= region@.subrange(from as int, from + i));
        }
        Ok(out)
    }
}

} // verus!
