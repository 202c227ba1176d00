//! Little-endian integers and 32-byte identities as raw bytes.

use vstd::prelude::*;

verus! {

/// The number that eight bytes stand for, least significant byte first.
pub open spec fn le_u64(b: Seq<u8>) -> u64
    recommends
        b.len() == 8,
{
    (b[0] + 0x100 * b[1] + 0x1_0000 * b[2] + 0x100_0000 * b[3] + 0x1_0000_0000 * b[4]
        + 0x100_0000_0000 * b[5] + 0x1_0000_0000_0000 * b[6] + 0x100_0000_0000_0000 * b[7]) as u64
}

/// The eight bytes that stand for a number, least significant byte first.
pub open spec fn le_bytes(v: u64) -> Seq<u8> {
    seq![
        (v % 0x100) as u8,
        (v / 0x100 % 0x100) as u8,
        (v / 0x1_0000 % 0x100) as u8,
        (v / 0x100_0000 % 0x100) as u8,
        (v / 0x1_0000_0000 % 0x100) as u8,
        (v / 0x100_0000_0000 % 0x100) as u8,
        (v / 0x1_0000_0000_0000 % 0x100) as u8,
        (v / 0x100_0000_0000_0000 % 0x100) as u8,
    ]
}

/// Reading back the bytes of a number gives the number.
pub proof fn lemma_le_u64_of_le_bytes(v: u64)
    ensures
        le_bytes(v).len() == 8,
        le_u64(le_bytes(v)) == v,
{
    let q1 = v / 0x100;
    let q2 = q1 / 0x100;
    let q3 = q2 / 0x100;
    let q4 = q3 / 0x100;
    let q5 = q4 / 0x100;
    let q6 = q5 / 0x100;
    let q7 = q6 / 0x100;
    assert(q2 == v / 0x1_0000);
    assert(q3 == v / 0x100_0000);
    assert(q4 == v / 0x1_0000_0000);
    assert(q5 == v / 0x100_0000_0000);
    assert(q6 == v / 0x1_0000_0000_0000);
    assert(q7 == v / 0x100_0000_0000_0000);
    assert(q7 < 0x100);
}

/// Writing out the number that eight bytes stand for gives those bytes.
pub proof fn lemma_le_bytes_of_le_u64(b: Seq<u8>)
    requires
        b.len() == 8,
    ensures
        le_bytes(le_u64(b)) == b,
{
    let r7: int = b[7] as int;
    let r6: int = b[6] + 0x100 * r7;
    let r5: int = b[5] + 0x100 * r6;
    let r4: int = b[4] + 0x100 * r5;
    let r3: int = b[3] + 0x100 * r4;
    let r2: int = b[2] + 0x100 * r3;
    let r1: int = b[1] + 0x100 * r2;
    let r0: int = b[0] + 0x100 * r1;
    let v = le_u64(b);
    assert(v == r0);
    assert(v / 0x100 == r1);
    assert(v / 0x1_0000 == r2);
    assert(v / 0x100_0000 == r3);
    assert(v / 0x1_0000_0000 == r4);
    assert(v / 0x100_0000_0000 == r5);
    assert(v / 0x1_0000_0000_0000 == r6);
    assert(v / 0x100_0000_0000_0000 == r7);
    assert(le_bytes(v) =~= b);
}

/// Reads the little-endian number in the eight bytes of `src` that start at `at`.
pub fn read_u64_le(src: &[u8], at: usize) -> (v: u64)
    requires
        at + 8 <= src.len(),
    ensures
        v == le_u64(src@.subrange(at as int, at + 8)),
{
    let b0: u64 = src[at] as u64;
    let b1: u64 = src[at + 1] as u64;
    let b2: u64 = src[at + 2] as u64;
    let b3: u64 = src[at + 3] as u64;
    let b4: u64 = src[at + 4] as u64;
    let b5: u64 = src[at + 5] as u64;
    let b6: u64 = src[at + 6] as u64;
    let b7: u64 = src[at + 7] as u64;
    b0 + 0x100 * b1 + 0x1_0000 * b2 + 0x100_0000 * b3 + 0x1_0000_0000 * b4 + 0x100_0000_0000 * b5
        + 0x1_0000_0000_0000 * b6 + 0x100_0000_0000_0000 * b7
}

/// Lays a number out as eight bytes, least significant first.
pub fn u64_le_bytes(v: u64) -> (bytes: [u8; 8])
    ensures
        bytes@ == le_bytes(v),
{
    let bytes: [u8; 8] = [
        (v % 0x100) as u8,
        (v / 0x100 % 0x100) as u8,
        (v / 0x1_0000 % 0x100) as u8,
        (v / 0x100_0000 % 0x100) as u8,
        (v / 0x1_0000_0000 % 0x100) as u8,
        (v / 0x100_0000_0000 % 0x100) as u8,
        (v / 0x1_0000_0000_0000 % 0x100) as u8,
        (v / 0x100_0000_0000_0000 % 0x100) as u8,
    ];
    bytes
}

/// Whether two identities are the same, byte for byte.
pub fn same_key(a: &[u8; 32], b: &[u8; 32]) -> (same: bool)
    ensures
        same == (a@ == b@),
{
    let mut i: usize = 0;
    while i < 32
        invariant
            i <= 32,
            forall|j: int| 0 <= j < i ==> #[trigger] a@[j] == b@[j],
        decreases 32 - i,
    {
        if a[i] != b[i] {
            return false;
        }
        i += 1;
    }
    assert(a@ =~= b@);
    true
}

/// The 32-byte identity stored in `src` from position `at` on.
pub fn read_key(src: &[u8], at: usize) -> (key: [u8; 32])
    requires
        at + 32 <= src.len(),
    ensures
        key@ == src@.subrange(at as int, at + 32),
{
    let mut key: [u8; 32] = [0u8; 32];
    let mut i: usize = 0;
    while i < 32
        invariant
            i <= 32,
            at + 32 <= src.len(),
            forall|j: int| 0 <= j < i ==> #[trigger] key@[j] == src@[at + j],
        decreases 32 - i,
    {
        key[i] = src[at + i];
        i += 1;
    }
    key
}

/// Copies `src` into `dst` from position `at` on; the rest of `dst` stays.
pub fn write_bytes(dst: &mut [u8], at: usize, src: &[u8])
    requires
        at + src.len() <= old(dst).len(),
    ensures
        final(dst)@ == old(dst)@.subrange(0, at as int) + src@ + old(dst)@.subrange(
            at + src.len(),
            old(dst).len() as int,
        ),
{
    let mut i: usize = 0;
    while i < src.len()
        invariant
            i <= src.len(),
            dst.len() == old(dst).len(),
            at + src.len() <= dst.len(),
            forall|j: int| 0 <= j < at ==> #[trigger] dst@[j] == old(dst)@[j],
            forall|j: int| 0 <= j < i ==> dst@[at + j] == #[trigger] src@[j],
            forall|j: int| at + i <= j < dst.len() ==> #[trigger] dst@[j] == old(dst)@[j],
        decreases src.len() - i,
    {
        dst[at + i] = src[i];
        i += 1;
    }
}

} // verus!
