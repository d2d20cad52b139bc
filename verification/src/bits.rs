//! Bit-level access to byte-packed buffers. Boolean values and the null
//! bitmap both pack eight elements to a byte, least-significant bit first:
//! bit `k` of byte `b` tests the value `1 << k`.

use vstd::prelude::*;

verus! {

/// Bit `i` of a packed byte sequence: bit `i % 8` of byte `i / 8`,
/// least-significant bit first.
pub open spec fn nth_bit(bytes: Seq<u8>, i: int) -> bool
    recommends
        0 <= i,
        i / 8 < bytes.len(),
{
    (bytes[i / 8] >> ((i % 8) as u8)) & 1 == 1
}

/// How many bytes hold `n` bits, one byte per eight bits, rounded up.
pub open spec fn ceil8(n: int) -> int {
    (n + 7) / 8
}

/// Bytes needed for a bitmap of `n` bits.
pub fn bit_bytes(n: usize) -> (r: usize)
    ensures
        r == ceil8(n as int),
{
    let whole: usize = n / 8;
    if n % 8 == 0 {
        whole
    } else {
        whole + 1
    }
}

/// `n` zero bytes.
pub open spec fn zero_seq(n: nat) -> Seq<u8> {
    Seq::new(n, |i: int| 0u8)
}

/// Appends `n` zero bytes: the fixed-width placeholder a null slot occupies.
pub fn push_zeros(out: &mut Vec<u8>, n: usize)
    ensures
        final(out)@ == old(out)@ + zero_seq(n as nat),
{
    let mut i: usize = 0;
    while i < n
        invariant
            i <= n,
            out@.len() == old(out)@.len() + i,
            forall|j: int| 0 <= j < old(out)@.len() ==> out@[j] == old(out)@[j],
            forall|j: int| old(out)@.len() <= j < out@.len() ==> out@[j] == 0u8,
        decreases n - i,
    {
        out.push(0u8);
        i = i + 1;
    }
    proof {
        assert(out@ =~= old(out)@ + zero_seq(n as nat));
    }
}

/// A vector of `n` zero bytes; every bit of it reads false.
pub fn zero_bytes(n: usize) -> (v: Vec<u8>)
    ensures
        v@.len() == n,
        forall|j: int| 0 <= j < n ==> v@[j] == 0u8,
        forall|j: int| 0 <= j && j / 8 < n ==> !nth_bit(v@, j),
{
    let mut v: Vec<u8> = Vec::new();
    let mut i: usize = 0;
    while i < n
        invariant
            i <= n,
            v@.len() == i as int,
            forall|j: int| 0 <= j < i ==> v@[j] == 0u8,
        decreases n - i,
    {
        v.push(0u8);
        i = i + 1;
    }
    proof {
        assert forall|j: int| 0 <= j && j / 8 < n implies !nth_bit(v@, j) by {
            lemma_zero_bit((j % 8) as u8);
        }
    }
    v
}

proof fn lemma_zero_bit(k: u8)
    by (bit_vector)
    requires
        k < 8,
    ensures
        (0u8 >> k) & 1 != 1,
{
}

proof fn lemma_or_bit(b: u8, k: u8, m: u8)
    by (bit_vector)
    requires
        k < 8,
        m < 8,
    ensures
        ((b | (1u8 << k)) >> k) & 1 == 1,
        m != k ==> ((b | (1u8 << k)) >> m) & 1 == (b >> m) & 1,
{
}

/// Sets bit `i` of a packed byte buffer, leaving every other bit as it was.
pub fn set_bit(buf: &mut Vec<u8>, i: usize)
    requires
        i as int / 8 < old(buf)@.len(),
    ensures
        final(buf)@.len() == old(buf)@.len(),
        nth_bit(final(buf)@, i as int),
        forall|j: int|
            0 <= j && j / 8 < final(buf)@.len() && j != i ==> nth_bit(final(buf)@, j) == nth_bit(
                old(buf)@,
                j,
            ),
{
    let idx: usize = i / 8;
    let sh: u8 = (i % 8) as u8;
    let b = buf[idx];
    buf.set(idx, b | (1u8 << sh));
    proof {
        assert forall|j: int| 0 <= j && j / 8 < final(buf)@.len() && j != i implies nth_bit(
            final(buf)@,
            j,
        ) == nth_bit(old(buf)@, j) by {
            if j / 8 == idx as int {
                assert(j % 8 != i as int % 8);
                lemma_or_bit(b, sh, (j % 8) as u8);
            }
        }
        lemma_or_bit(b, sh, 0);
    }
}

} // verus!
