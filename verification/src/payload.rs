//! The register payload carried by an FF-A direct message.
use vstd::prelude::*;
use vstd::bytes::*;

verus! {

/// Number of payload bytes in a direct message: fourteen 64-bit registers.
pub const PAYLOAD_LEN: usize = 112;

/// Number of 64-bit registers in a direct-message payload.
pub const PAYLOAD_REGS: usize = 14;

/// `s` padded with zero bytes up to the full payload length.
pub open spec fn padded(s: Seq<u8>) -> Seq<u8> {
    Seq::new(PAYLOAD_LEN as nat, |i: int| if i < s.len() { s[i] } else { 0u8 })
}

/// Little-endian `u16` stored at `off` in `s`.
pub open spec fn le_u16_at(s: Seq<u8>, off: int) -> u16 {
    spec_u16_from_le_bytes(s.subrange(off, off + 2))
}

/// Little-endian `u32` stored at `off` in `s`.
pub open spec fn le_u32_at(s: Seq<u8>, off: int) -> u32 {
    spec_u32_from_le_bytes(s.subrange(off, off + 4))
}

/// Little-endian `u64` stored at `off` in `s`.
pub open spec fn le_u64_at(s: Seq<u8>, off: int) -> u64 {
    spec_u64_from_le_bytes(s.subrange(off, off + 8))
}

/// The payload of an FF-A direct request or response.
#[derive(Clone, Copy)]
pub struct Payload {
    pub bytes: [u8; PAYLOAD_LEN],
}

impl View for Payload {
    type V = Seq<u8>;

    open spec fn view(&self) -> Seq<u8> {
        self.bytes@
    }
}

impl Payload {
    /// A payload whose bytes are all zero.
    pub fn zeroed() -> (r: Payload)
        ensures
            r@ == padded(Seq::empty()),
    {
        let r = Payload { bytes: [0u8; 112] };
        assert(r@ =~= padded(Seq::empty()));
        r
    }

    /// A payload holding `src` at its start and zero bytes after it.
    pub fn from_bytes(src: &[u8]) -> (r: Payload)
        requires
            src@.len() <= PAYLOAD_LEN,
        ensures
            r@ == padded(src@),
    {
        let mut bytes = [0u8; 112];
        let n = src.len();
        let mut i: usize = 0;
        while i < n
            invariant
                n == src@.len(),
                n <= PAYLOAD_LEN,
                i <= n,
                bytes@.len() == PAYLOAD_LEN,
                forall|k: int| 0 <= k < i ==> bytes@[k] == src@[k],
                forall|k: int| i <= k < PAYLOAD_LEN ==> bytes@[k] == 0u8,
            decreases n - i,
        {
            bytes[i] = src[i];
            i = i + 1;
        }
        let r = Payload { bytes };
        assert(r@ =~= padded(src@));
        r
    }

    /// The byte at `off`.
    pub fn u8_at(&self, off: usize) -> (r: u8)
        requires
            off < PAYLOAD_LEN,
        ensures
            r == self@[off as int],
    {
        self.bytes[off]
    }

    /// The bytes `start..end`, or `None` where the range does not lie in the payload.
    pub fn get(&self, start: usize, end: usize) -> (r: Option<&[u8]>)
        ensures
            r is Some <==> start <= end <= PAYLOAD_LEN,
            r matches Some(s) ==> s@ == self@.subrange(start as int, end as int),
    {
        if start <= end && end <= PAYLOAD_LEN {
            Some(vstd::slice::slice_subrange(self.bytes.as_slice(), start, end))
        } else {
            None
        }
    }

    /// The bytes `start..end`.
    pub fn slice(&self, start: usize, end: usize) -> (r: &[u8])
        requires
            start <= end <= PAYLOAD_LEN,
        ensures
            r@ == self@.subrange(start as int, end as int),
    {
        vstd::slice::slice_subrange(self.bytes.as_slice(), start, end)
    }

    /// The little-endian `u16` at `off`.
    pub fn u16_at(&self, off: usize) -> (r: u16)
        requires
            off + 2 <= PAYLOAD_LEN,
        ensures
            r == le_u16_at(self@, off as int),
    {
        u16_from_le_bytes(self.slice(off, off + 2))
    }

    /// The little-endian `u32` at `off`.
    pub fn u32_at(&self, off: usize) -> (r: u32)
        requires
            off + 4 <= PAYLOAD_LEN,
        ensures
            r == le_u32_at(self@, off as int),
    {
        u32_from_le_bytes(self.slice(off, off + 4))
    }

    /// The little-endian `u64` at `off`.
    pub fn u64_at(&self, off: usize) -> (r: u64)
        requires
            off + 8 <= PAYLOAD_LEN,
        ensures
            r == le_u64_at(self@, off as int),
    {
        u64_from_le_bytes(self.slice(off, off + 8))
    }

    /// Register `idx`, the little-endian `u64` at byte `8 * idx`.
    pub fn register_at(&self, idx: usize) -> (r: u64)
        requires
            idx < PAYLOAD_REGS,
        ensures
            r == le_u64_at(self@, 8 * idx as int),
    {
        self.u64_at(8 * idx)
    }
}

/// Appends the little-endian bytes of `x` to `v`.
pub fn push_le_u16(v: &mut Vec<u8>, x: u16)
    ensures
        final(v)@ == old(v)@ + spec_u16_to_le_bytes(x),
{
    let mut b = u16_to_le_bytes(x);
    v.append(&mut b);
}

/// Appends the little-endian bytes of `x` to `v`.
pub fn push_le_u32(v: &mut Vec<u8>, x: u32)
    ensures
        final(v)@ == old(v)@ + spec_u32_to_le_bytes(x),
{
    let mut b = u32_to_le_bytes(x);
    v.append(&mut b);
}

/// Appends the little-endian bytes of `x` to `v`.
pub fn push_le_u64(v: &mut Vec<u8>, x: u64)
    ensures
        final(v)@ == old(v)@ + spec_u64_to_le_bytes(x),
{
    let mut b = u64_to_le_bytes(x);
    v.append(&mut b);
}

/// Length facts of the little-endian encodings.
pub proof fn lemma_le_lens()
    ensures
        forall|x: u16| #[trigger] spec_u16_to_le_bytes(x).len() == 2,
        forall|x: u32| #[trigger] spec_u32_to_le_bytes(x).len() == 4,
        forall|x: u64| #[trigger] spec_u64_to_le_bytes(x).len() == 8,
{
    lemma_auto_spec_u16_to_from_le_bytes();
    lemma_auto_spec_u32_to_from_le_bytes();
    lemma_auto_spec_u64_to_from_le_bytes();
}

/// Reading back an encoded `u16`: in a payload holding `pre`, the encoding
/// of `x` and `post`, the `u16` at the end of `pre` is `x`.
pub proof fn lemma_u16_read_back(pre: Seq<u8>, x: u16, post: Seq<u8>)
    requires
        pre.len() + 2 <= PAYLOAD_LEN,
    ensures
        le_u16_at(padded(pre + spec_u16_to_le_bytes(x) + post), pre.len() as int) == x,
{
    lemma_auto_spec_u16_to_from_le_bytes();
    let s = pre + spec_u16_to_le_bytes(x) + post;
    assert(padded(s).subrange(pre.len() as int, pre.len() as int + 2) =~= spec_u16_to_le_bytes(x));
}

/// Reading back an encoded `u32`, as for `u16`.
pub proof fn lemma_u32_read_back(pre: Seq<u8>, x: u32, post: Seq<u8>)
    requires
        pre.len() + 4 <= PAYLOAD_LEN,
    ensures
        le_u32_at(padded(pre + spec_u32_to_le_bytes(x) + post), pre.len() as int) == x,
{
    lemma_auto_spec_u32_to_from_le_bytes();
    let s = pre + spec_u32_to_le_bytes(x) + post;
    assert(padded(s).subrange(pre.len() as int, pre.len() as int + 4) =~= spec_u32_to_le_bytes(x));
}

/// Reading back an encoded `u64`, as for `u16`.
pub proof fn lemma_u64_read_back(pre: Seq<u8>, x: u64, post: Seq<u8>)
    requires
        pre.len() + 8 <= PAYLOAD_LEN,
    ensures
        le_u64_at(padded(pre + spec_u64_to_le_bytes(x) + post), pre.len() as int) == x,
{
    lemma_auto_spec_u64_to_from_le_bytes();
    let s = pre + spec_u64_to_le_bytes(x) + post;
    assert(padded(s).subrange(pre.len() as int, pre.len() as int + 8) =~= spec_u64_to_le_bytes(x));
}

/// The little-endian bytes of each value of `s`, one after the other.
pub open spec fn u32s_le_bytes(s: Seq<u32>) -> Seq<u8>
    decreases s.len(),
{
    if s.len() == 0 {
        Seq::empty()
    } else {
        u32s_le_bytes(s.drop_last()) + spec_u32_to_le_bytes(s.last())
    }
}

/// The encoding of `s` has four bytes per value, and value `i` is the
/// little-endian `u32` at byte `4 * i`.
pub proof fn lemma_u32s_le_bytes(s: Seq<u32>)
    ensures
        u32s_le_bytes(s).len() == 4 * s.len(),
        forall|i: int| 0 <= i < s.len() ==> #[trigger] u32s_le_bytes(s).subrange(4 * i, 4 * i + 4) == spec_u32_to_le_bytes(s[i]),
    decreases s.len(),
{
    lemma_le_lens();
    if s.len() > 0 {
        let t = s.drop_last();
        lemma_u32s_le_bytes(t);
        let b = u32s_le_bytes(s);
        assert forall|i: int| 0 <= i < s.len() implies #[trigger] u32s_le_bytes(s).subrange(4 * i, 4 * i + 4) == spec_u32_to_le_bytes(s[i]) by {
            if i < t.len() {
                assert(b.subrange(4 * i, 4 * i + 4) =~= u32s_le_bytes(t).subrange(4 * i, 4 * i + 4));
            } else {
                assert(b.subrange(4 * i, 4 * i + 4) =~= spec_u32_to_le_bytes(s.last()));
            }
        }
    }
}

/// Reading back encoded values: in a payload holding the encoding of `s`,
/// the `u32` at byte `4 * i` is `s[i]`.
pub proof fn lemma_u32s_read_back(s: Seq<u32>, i: int)
    requires
        4 * s.len() <= PAYLOAD_LEN,
        0 <= i < s.len(),
    ensures
        le_u32_at(padded(u32s_le_bytes(s)), 4 * i) == s[i],
{
    lemma_u32s_le_bytes(s);
    lemma_auto_spec_u32_to_from_le_bytes();
    assert(padded(u32s_le_bytes(s)).subrange(4 * i, 4 * i + 4) =~= u32s_le_bytes(s).subrange(4 * i, 4 * i + 4));
}

impl Payload {
    /// A payload holding the little-endian bytes of each value of `vals`.
    pub fn from_u32s(vals: &[u32]) -> (r: Payload)
        requires
            4 * vals@.len() <= PAYLOAD_LEN,
        ensures
            r@ == padded(u32s_le_bytes(vals@)),
    {
        let mut v: Vec<u8> = Vec::new();
        let mut i: usize = 0;
        while i < vals.len()
            invariant
                i <= vals@.len(),
                v@ == u32s_le_bytes(vals@.subrange(0, i as int)),
            decreases vals@.len() - i,
        {
            push_le_u32(&mut v, vals[i]);
            assert(vals@.subrange(0, i + 1).drop_last() =~= vals@.subrange(0, i as int));
            i = i + 1;
        }
        assert(vals@.subrange(0, vals@.len() as int) =~= vals@);
        proof { lemma_u32s_le_bytes(vals@); }
        Payload::from_bytes(v.as_slice())
    }
}

} // verus!
