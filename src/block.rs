//! The Blowfish round function and the 16-round Feistel network over one
//! 64-bit block.
use vstd::prelude::*;

verus! {

/// The four bytes of `n`, most significant first.
pub open spec fn quartets_spec(n: u32) -> (u8, u8, u8, u8) {
    ((n >> 24u32) as u8, (n >> 16u32) as u8, (n >> 8u32) as u8, n as u8)
}

/// The two 32-bit halves of a block: (high, low).
pub open spec fn split_spec(n: u64) -> (u32, u32) {
    ((n >> 32u64) as u32, n as u32)
}

/// The block whose high half is `l` and whose low half is `r`.
pub open spec fn combine_spec(l: u32, r: u32) -> u64 {
    ((l as u64) << 32u64) | (r as u64)
}

/// The four S-boxes laid end to end: box `b` entry `i` stands at `256 * b + i`.
pub open spec fn sbox_view(s: [[u32; 256]; 4]) -> Seq<u32> {
    Seq::new(1024, |i: int| s[i / 256][i % 256])
}

/// The round function: `((S0[a] + S1[b]) ^ S2[c]) + S3[d]`, additions modulo 2^32,
/// where `a, b, c, d` are the bytes of `x`, most significant first, and `s` holds
/// the four boxes end to end.
pub open spec fn f_spec(x: u32, s: Seq<u32>) -> u32 {
    let (a, b, c, d) = quartets_spec(x);
    (s[a as int].wrapping_add(s[256 + b]) ^ s[512 + c]).wrapping_add(s[768 + d])
}

/// The halves after the first `n` rounds from `(l, r)`: round `i` xors `k[i]` into the
/// left half, xors the round function of the result into the right half, and swaps them.
pub open spec fn rounds(k: Seq<u32>, s: Seq<u32>, l: u32, r: u32, n: nat) -> (u32, u32)
    decreases n,
{
    if n == 0 {
        (l, r)
    } else {
        let (a, b) = rounds(k, s, l, r, (n - 1) as nat);
        let t = a ^ k[n - 1];
        (b ^ f_spec(t, s), t)
    }
}

/// The Feistel network under the 18 key words `k`: 16 rounds, the last swap undone, then
/// `k[16]` xored into the right half and `k[17]` into the left half.
pub open spec fn feistel(k: Seq<u32>, s: Seq<u32>, block: u64) -> u64 {
    let (l, r) = split_spec(block);
    let (a, b) = rounds(k, s, l, r, 16);
    combine_spec(b ^ k[17], a ^ k[16])
}

/// The subkeys in reverse order, as decryption uses them.
pub open spec fn rev_keys(p: Seq<u32>) -> Seq<u32> {
    Seq::new(18, |j: int| p[17 - j])
}

/// Splits a u32 into its four bytes, most significant first.
pub fn quartets(n: &u32) -> (r: (u8, u8, u8, u8))
    ensures
        r == quartets_spec(*n),
{
    ((*n >> 24u32) as u8, (*n >> 16u32) as u8, (*n >> 8u32) as u8, *n as u8)
}

/// Splits a block into its high and low 32-bit halves.
pub fn split(n: &u64) -> (r: (u32, u32))
    ensures
        r == split_spec(*n),
{
    let x = *n;
    proof {
        assert((x & 0xffff_ffffu64) as u32 == x as u32) by (bit_vector);
    }
    ((x >> 32u64) as u32, (x & 0xffff_ffffu64) as u32)
}

/// Joins two 32-bit halves into one block, `l` high.
pub fn combine(l: &u32, r: &u32) -> (b: u64)
    ensures
        b == combine_spec(*l, *r),
{
    ((*l as u64) << 32u64) | (*r as u64)
}

/// The round function over the four S-boxes.
pub fn f(n: &u32, s_boxes: &[[u32; 256]; 4]) -> (r: u32)
    ensures
        r == f_spec(*n, sbox_view(*s_boxes)),
{
    let (a, b, c, d) = quartets(n);
    (s_boxes[0][a as usize].wrapping_add(s_boxes[1][b as usize]) ^ s_boxes[2][c as usize])
        .wrapping_add(s_boxes[3][d as usize])
}

/// Encrypts one block under the subkeys `p_subkeys` and the S-boxes `s_boxes`.
pub fn encrypt_block(block: u64, p_subkeys: &[u32; 18], s_boxes: &[[u32; 256]; 4]) -> (r: u64)
    ensures
        r == feistel(p_subkeys@, sbox_view(*s_boxes), block),
{
    let (mut left, mut right) = split(&block);
    let ghost l0 = left;
    let ghost r0 = right;
    let mut i: usize = 0;
    while i < 16
        invariant
            i <= 16,
            (left, right) == rounds(p_subkeys@, sbox_view(*s_boxes), l0, r0, i as nat),
        decreases 16 - i,
    {
        left = left ^ p_subkeys[i];
        right = right ^ f(&left, s_boxes);
        let t = left;
        left = right;
        right = t;
        i = i + 1;
    }
    // undo the last swap
    let t = left;
    left = right;
    right = t;
    right = right ^ p_subkeys[16];
    left = left ^ p_subkeys[17];
    combine(&left, &right)
}

/// Decrypts one block: the same network with the subkeys taken from `p_subkeys[17]` down
/// to `p_subkeys[0]`.
pub fn decrypt_block(block: u64, p_subkeys: &[u32; 18], s_boxes: &[[u32; 256]; 4]) -> (r: u64)
    ensures
        r == feistel(rev_keys(p_subkeys@), sbox_view(*s_boxes), block),
{
    let (mut left, mut right) = split(&block);
    let ghost l0 = left;
    let ghost r0 = right;
    let mut i: usize = 0;
    while i < 16
        invariant
            i <= 16,
            (left, right) == rounds(rev_keys(p_subkeys@), sbox_view(*s_boxes), l0, r0, i as nat),
        decreases 16 - i,
    {
        left = left ^ p_subkeys[17 - i];
        right = right ^ f(&left, s_boxes);
        let t = left;
        left = right;
        right = t;
        i = i + 1;
    }
    // undo the last swap
    let t = left;
    left = right;
    right = t;
    right = right ^ p_subkeys[1];
    left = left ^ p_subkeys[0];
    combine(&left, &right)
}

proof fn lemma_xor_cancel(x: u32, k: u32)
    ensures
        (x ^ k) ^ k == x,
{
    assert((x ^ k) ^ k == x) by (bit_vector);
}

proof fn lemma_xor_cancel_middle(x: u32, y: u32, k: u32)
    ensures
        ((x ^ y) ^ k) ^ y == x ^ k,
{
    assert(((x ^ y) ^ k) ^ y == x ^ k) by (bit_vector);
}

/// Splitting a combined block gives back its halves.
pub proof fn lemma_split_combine(l: u32, r: u32)
    ensures
        split_spec(combine_spec(l, r)) == (l, r),
{
    assert((((l as u64) << 32u64 | r as u64) >> 32u64) as u32 == l) by (bit_vector);
    assert((((l as u64) << 32u64 | r as u64)) as u32 == r) by (bit_vector);
}

/// Combining the halves of a block gives back the block.
pub proof fn lemma_combine_split(b: u64)
    ensures
        combine_spec(split_spec(b).0, split_spec(b).1) == b,
{
    assert((((b >> 32u64) as u32) as u64) << 32u64 | ((b as u32) as u64) == b) by (bit_vector);
}

/// Running the rounds backwards, with the subkeys reversed, from the encrypted halves
/// retraces the encryption's intermediate halves.
proof fn lemma_rounds_undo(p: Seq<u32>, s: Seq<u32>, l0: u32, r0: u32, j: nat)
    requires
        p.len() == 18,
        j <= 16,
    ensures
        ({
            let (a16, b16) = rounds(p, s, l0, r0, 16);
            let (a, b) = rounds(p, s, l0, r0, (16 - j) as nat);
            rounds(rev_keys(p), s, b16 ^ p[17], a16 ^ p[16], j) == (b ^ p[17 - j], a ^ p[16
                - j])
        }),
    decreases j,
{
    if j > 0 {
        let i = (16 - j) as nat;
        lemma_rounds_undo(p, s, l0, r0, (j - 1) as nat);
        let (a, b) = rounds(p, s, l0, r0, i);
        let (a1, b1) = rounds(p, s, l0, r0, i + 1);
        let t = a ^ p[i as int];
        assert(a1 == b ^ f_spec(t, s) && b1 == t);
        let big_a = b1 ^ p[17 - (j - 1)];
        assert(rev_keys(p)[j - 1] == p[17 - (j - 1)]);
        lemma_xor_cancel(b1, p[17 - (j - 1)]);
        lemma_xor_cancel_middle(b, f_spec(t, s), p[16 - (j - 1)]);
        assert(big_a ^ rev_keys(p)[j - 1] == t);
    }
}

/// Decryption undoes encryption: for every block and every state,
/// `decrypt_block(encrypt_block(b)) == b`.
pub proof fn lemma_decrypt_encrypt(p: Seq<u32>, s: Seq<u32>, b: u64)
    requires
        p.len() == 18,
    ensures
        feistel(rev_keys(p), s, feistel(p, s, b)) == b,
{
    let (l0, r0) = split_spec(b);
    let (a16, b16) = rounds(p, s, l0, r0, 16);
    lemma_split_combine(b16 ^ p[17], a16 ^ p[16]);
    lemma_rounds_undo(p, s, l0, r0, 16);
    let (a0, b0) = rounds(rev_keys(p), s, b16 ^ p[17], a16 ^ p[16], 16);
    assert(rev_keys(p)[17] == p[0] && rev_keys(p)[16] == p[1]);
    lemma_xor_cancel(l0, p[0]);
    lemma_xor_cancel(r0, p[1]);
    lemma_combine_split(b);
}

} // verus!
