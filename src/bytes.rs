use vstd::prelude::*;

verus! {

/// Big-endian (network order) bytes of a 16-bit value.
pub open spec fn be16(v: u16) -> Seq<u8> {
    seq![(v / 256) as u8, (v % 256) as u8]
}

/// The 16-bit value of two big-endian bytes.
pub open spec fn from_be16(hi: u8, lo: u8) -> u16 {
    (hi as int * 256 + lo as int) as u16
}

/// The value length rounded up to the next multiple of four.
pub open spec fn padded_len(n: nat) -> nat {
    if n % 4 == 0 {
        n
    } else {
        (n + (4 - n % 4)) as nat
    }
}

/// `n` zero bytes.
pub open spec fn zeros(n: nat) -> Seq<u8> {
    Seq::new(n, |i: int| 0u8)
}

/// The buffer with its 16-bit length field (bytes 2 and 3) set to `n`.
pub open spec fn with_len(b: Seq<u8>, n: u16) -> Seq<u8> {
    b.update(2, (n / 256) as u8).update(3, (n % 256) as u8)
}

/// The padded length is the next multiple of four, at most three more.
pub proof fn lemma_padded_len(n: nat)
    ensures
        padded_len(n) >= n,
        padded_len(n) < n + 4,
        padded_len(n) % 4 == 0,
        padded_len(n) == ((n + 3) / 4) * 4,
{
}

/// Reading back the two bytes of a 16-bit value gives the value.
pub proof fn lemma_be16_roundtrip(v: u16)
    ensures
        from_be16(be16(v)[0], be16(v)[1]) == v,
{
}

/// Rounds a length up to the next multiple of four.
pub fn padded_len_u32(n: u32) -> (r: u32)
    requires
        n <= 0xFFFF_FFF0,
    ensures
        r == padded_len(n as nat),
{
    if n % 4 == 0 {
        n
    } else {
        n + (4 - n % 4)
    }
}

/// Appends the two big-endian bytes of `v`.
pub fn push_u16(out: &mut Vec<u8>, v: u16)
    ensures
        final(out)@ == old(out)@ + be16(v),
{
    out.push((v / 256) as u8);
    out.push((v % 256) as u8);
    assert(final(out)@ =~= old(out)@ + be16(v));
}

/// Appends every byte of `src`.
pub fn push_all(out: &mut Vec<u8>, src: &[u8])
    ensures
        final(out)@ == old(out)@ + src@,
{
    let ghost start = out@;
    let mut i: usize = 0;
    while i < src.len()
        invariant
            0 <= i <= src@.len(),
            out@ == start + src@.subrange(0, i as int),
        decreases src@.len() - i,
    {
        out.push(src[i]);
        i = i + 1;
        assert(out@ =~= start + src@.subrange(0, i as int));
    }
    assert(src@.subrange(0, src@.len() as int) =~= src@);
}

/// Appends `n` zero bytes.
pub fn push_zeros(out: &mut Vec<u8>, n: usize)
    ensures
        final(out)@ == old(out)@ + zeros(n as nat),
{
    let ghost start = out@;
    let mut i: usize = 0;
    while i < n
        invariant
            0 <= i <= n,
            out@ == start + zeros(i as nat),
        decreases n - i,
    {
        out.push(0u8);
        i = i + 1;
        assert(out@ =~= start + zeros(i as nat));
    }
}

/// Overwrites the length field (bytes 2 and 3) of an encoded message.
pub fn set_len_field(out: &mut Vec<u8>, n: u16)
    requires
        old(out)@.len() >= 4,
    ensures
        final(out)@ == with_len(old(out)@, n),
{
    out.set(2, (n / 256) as u8);
    out.set(3, (n % 256) as u8);
}

/// Copies `len` bytes of `src` starting at `start`.
pub fn copy_range(src: &[u8], start: usize, len: usize) -> (r: Vec<u8>)
    requires
        start + len <= src@.len(),
    ensures
        r@ == src@.subrange(start as int, start + len),
{
    let mut r: Vec<u8> = Vec::new();
    let n = src.len();
    let mut i: usize = 0;
    while i < len
        invariant
            0 <= i <= len,
            n == src@.len(),
            start + len <= src@.len(),
            r@ == src@.subrange(start as int, start + i),
        decreases len - i,
    {
        r.push(src[start + i]);
        i = i + 1;
        assert(r@ =~= src@.subrange(start as int, start + i));
    }
    r
}

/// Reads two big-endian bytes at `pos`.
pub fn read_u16(src: &[u8], pos: usize) -> (r: u16)
    requires
        pos + 2 <= src@.len(),
    ensures
        r == from_be16(src@[pos as int], src@[pos + 1]),
{
    (src[pos] as u16) * 256 + (src[pos + 1] as u16)
}

/// Whether two byte sequences are equal.
pub fn same_bytes(a: &[u8], b: &[u8]) -> (r: bool)
    ensures
        r == (a@ == b@),
{
    if a.len() != b.len() {
        return false;
    }
    let mut i: usize = 0;
    while i < a.len()
        invariant
            a@.len() == b@.len(),
            0 <= i <= a@.len(),
            forall|j: int| 0 <= j < i ==> a@[j] == b@[j],
        decreases a@.len() - i,
    {
        if a[i] != b[i] {
            return false;
        }
        i = i + 1;
    }
    assert(a@ =~= b@);
    true
}

} // verus!
