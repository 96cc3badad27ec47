//! Packing bytes into words: a password into the 14 key words, data into big-endian
//! 64-bit blocks with a reversible padding, and blocks back into bytes.
use vstd::prelude::*;

use crate::error::CipherError;

verus! {

/// Largest password length in bytes: 14 key words of 4 bytes.
pub const MAX_PASSWORD_LEN: usize = 56;

/// The 32-bit word whose bytes, most significant first, are `a, b, c, d`.
pub open spec fn word_spec(a: u8, b: u8, c: u8, d: u8) -> u32 {
    (a as u32) << 24u32 | (b as u32) << 16u32 | (c as u32) << 8u32 | (d as u32)
}

/// The password byte at logical position `j`: the password repeated cyclically.
pub open spec fn cyclic_byte(pw: Seq<u8>, j: int) -> u8 {
    pw[j % (pw.len() as int)]
}

/// The 14 key words of a password: word `i` is made of the bytes at logical positions
/// `4 * i .. 4 * i + 4`, most significant first.
pub open spec fn key_words(pw: Seq<u8>) -> Seq<u32> {
    Seq::new(
        14,
        |i: int|
            word_spec(
                cyclic_byte(pw, 4 * i),
                cyclic_byte(pw, 4 * i + 1),
                cyclic_byte(pw, 4 * i + 2),
                cyclic_byte(pw, 4 * i + 3),
            ),
    )
}

/// Byte `j` of `b`, or zero past its end.
pub open spec fn byte_or_zero_spec(b: Seq<u8>, j: int) -> u8 {
    if 0 <= j < b.len() {
        b[j]
    } else {
        0
    }
}

/// Block `i` of `b`: bytes `8 * i .. 8 * i + 8`, big-endian, zero past the end of `b`.
pub open spec fn block_at(b: Seq<u8>, i: int) -> u64 {
    (byte_or_zero_spec(b, 8 * i) as u64) << 56u64 | (byte_or_zero_spec(b, 8 * i + 1) as u64)
        << 48u64 | (byte_or_zero_spec(b, 8 * i + 2) as u64) << 40u64 | (byte_or_zero_spec(
        b,
        8 * i + 3,
    ) as u64) << 32u64 | (byte_or_zero_spec(b, 8 * i + 4) as u64) << 24u64 | (
    byte_or_zero_spec(b, 8 * i + 5) as u64) << 16u64 | (byte_or_zero_spec(b, 8 * i + 6) as u64)
        << 8u64 | (byte_or_zero_spec(b, 8 * i + 7) as u64)
}

/// The bytes grouped eight to a block; a partial last group is filled with zeros.
pub open spec fn pack(b: Seq<u8>) -> Seq<u64> {
    Seq::new(((b.len() + 7) / 8) as nat, |i: int| block_at(b, i))
}

/// Byte `k` of a block, most significant first.
pub open spec fn block_byte(x: u64, k: int) -> u8 {
    (x >> ((56 - 8 * k) as u64)) as u8
}

/// The blocks flattened to bytes, each big-endian.
pub open spec fn unpack(bs: Seq<u64>) -> Seq<u8> {
    Seq::new(8 * bs.len(), |j: int| block_byte(bs[j / 8], j % 8))
}

/// How many padding bytes `pad` appends to data of length `len`: 1 to 8.
pub open spec fn pad_len(len: nat) -> nat {
    (8 - len % 8) as nat
}

/// The data followed by `n` bytes of value `n`, where `n` brings the length to the next
/// multiple of 8 strictly above it.
pub open spec fn pad(d: Seq<u8>) -> Seq<u8> {
    d + Seq::new(pad_len(d.len()), |j: int| pad_len(d.len()) as u8)
}

/// Whether `b` ends in a well-formed padding: its last byte `n` is in `1..=8`, and the
/// last `n` bytes all equal `n`.
pub open spec fn padding_ok(b: Seq<u8>) -> bool {
    &&& b.len() > 0
    &&& 1 <= b.last() <= 8
    &&& b.last() <= b.len()
    &&& forall|j: int| b.len() - b.last() <= j < b.len() ==> b[j] == b.last()
}

/// The bytes with the padding stripped, or `None` where the padding is malformed.
pub open spec fn unpad(b: Seq<u8>) -> Option<Seq<u8>> {
    if padding_ok(b) {
        Some(b.subrange(0, b.len() - b.last()))
    } else {
        None
    }
}

/// Packs the password bytes into 14 key words, wrapping over the password cyclically.
pub fn password_to_key(password: &[u8]) -> (key: [u32; 14])
    requires
        1 <= password@.len() <= MAX_PASSWORD_LEN,
    ensures
        key@ == key_words(password@),
{
    let len = password.len();
    let mut key: [u32; 14] = [0; 14];
    let mut idx: usize = 0;
    while idx < 14
        invariant
            len == password@.len(),
            1 <= len <= MAX_PASSWORD_LEN,
            idx <= 14,
            forall|i: int| 0 <= i < idx ==> key[i] == #[trigger] key_words(password@)[i],
        decreases 14 - idx,
    {
        key[idx] = (password[(idx * 4) % len] as u32) << 24u32 | (password[(idx * 4 + 1) % len]
            as u32) << 16u32 | (password[(idx * 4 + 2) % len] as u32) << 8u32 | (password[(idx
            * 4 + 3) % len] as u32);
        idx = idx + 1;
    }
    assert(key@ =~= key_words(password@));
    key
}

/// Byte `at + k` of `bytes`, or zero past its end.
fn byte_or_zero(bytes: &[u8], at: usize, k: usize) -> (r: u8)
    requires
        at < bytes@.len(),
    ensures
        r == byte_or_zero_spec(bytes@, at + k),
{
    if k < bytes.len() - at {
        bytes[at + k]
    } else {
        0
    }
}

/// Groups the bytes into big-endian blocks of eight; a partial last group is filled with
/// zeros.
pub fn bytes_to_blocks(bytes: &[u8]) -> (blocks: Vec<u64>)
    ensures
        blocks@ == pack(bytes@),
{
    let mut blocks: Vec<u64> = Vec::new();
    let len = bytes.len();
    let n = len / 8 + if len % 8 == 0 {
        0
    } else {
        1
    };
    assert(n == (bytes@.len() + 7) / 8);
    let mut i: usize = 0;
    while i < n
        invariant
            len == bytes@.len(),
            n == (bytes@.len() + 7) / 8,
            i <= n,
            blocks@ =~= pack(bytes@).subrange(0, i as int),
        decreases n - i,
    {
        assert(8 * i < bytes@.len()) by (nonlinear_arith)
            requires
                i < n,
                n == (bytes@.len() + 7) / 8,
        ;
        let at = 8 * i;
        let w = (byte_or_zero(bytes, at, 0) as u64) << 56u64 | (byte_or_zero(bytes, at, 1)
            as u64) << 48u64 | (byte_or_zero(bytes, at, 2) as u64) << 40u64 | (byte_or_zero(
            bytes,
            at,
            3,
        ) as u64) << 32u64 | (byte_or_zero(bytes, at, 4) as u64) << 24u64 | (byte_or_zero(
            bytes,
            at,
            5,
        ) as u64) << 16u64 | (byte_or_zero(bytes, at, 6) as u64) << 8u64 | (byte_or_zero(
            bytes,
            at,
            7,
        ) as u64);
        blocks.push(w);
        i = i + 1;
    }
    blocks
}

/// Flattens the blocks into bytes, each block big-endian.
pub fn blocks_to_bytes(blocks: &Vec<u64>) -> (bytes: Vec<u8>)
    requires
        8 * blocks@.len() <= usize::MAX,
    ensures
        bytes@ == unpack(blocks@),
{
    let mut bytes: Vec<u8> = Vec::new();
    let mut i: usize = 0;
    while i < blocks.len()
        invariant
            8 * blocks@.len() <= usize::MAX,
            i <= blocks@.len(),
            bytes@ =~= unpack(blocks@.subrange(0, i as int)),
        decreases blocks@.len() - i,
    {
        let block = blocks[i];
        let mut offset: u64 = 0;
        while offset < 8
            invariant
                i < blocks@.len(),
                block == blocks@[i as int],
                offset <= 8,
                bytes@ =~= unpack(blocks@.subrange(0, i as int)) + Seq::new(
                    offset as nat,
                    |k: int| block_byte(block, k),
                ),
            decreases 8 - offset,
        {
            // the most significant byte comes first
            bytes.push((block >> (56 - 8 * offset)) as u8);
            offset = offset + 1;
        }
        assert(unpack(blocks@.subrange(0, i + 1)) =~= unpack(blocks@.subrange(0, i as int))
            + Seq::new(8, |k: int| block_byte(block, k)));
        i = i + 1;
    }
    assert(blocks@.subrange(0, blocks@.len() as int) =~= blocks@);
    bytes
}

/// Appends the padding and groups the result into blocks.
pub fn pad_and_pack(data: &[u8]) -> (blocks: Vec<u64>)
    ensures
        blocks@ == pack(pad(data@)),
{
    let mut bytes: Vec<u8> = Vec::new();
    let mut i: usize = 0;
    while i < data.len()
        invariant
            i <= data@.len(),
            bytes@ =~= data@.subrange(0, i as int),
        decreases data@.len() - i,
    {
        bytes.push(data[i]);
        i = i + 1;
    }
    let n: u8 = (8 - data.len() % 8) as u8;
    let mut k: u8 = 0;
    while k < n
        invariant
            n == pad_len(data@.len()),
            k <= n,
            bytes@ =~= data@ + Seq::new(k as nat, |j: int| n),
        decreases n - k,
    {
        bytes.push(n);
        k = k + 1;
    }
    assert(bytes@ =~= pad(data@));
    bytes_to_blocks(bytes.as_slice())
}

/// Flattens the blocks into bytes and strips the padding; fails with `MalformedPadding`
/// where the last byte is 0 or above 8, or the bytes it covers do not all equal it.
pub fn unpack_and_unpad(blocks: &Vec<u64>) -> (r: Result<Vec<u8>, CipherError>)
    requires
        8 * blocks@.len() <= usize::MAX,
    ensures
        r is Ok <==> unpad(unpack(blocks@)) is Some,
        r matches Ok(v) ==> unpad(unpack(blocks@)) == Some(v@),
        r matches Err(e) ==> e == CipherError::MalformedPadding,
{
    let mut bytes = blocks_to_bytes(blocks);
    let len = bytes.len();
    if len == 0 {
        return Err(CipherError::MalformedPadding);
    }
    let n = bytes[len - 1];
    if n == 0 || n > 8 || n as usize > len {
        return Err(CipherError::MalformedPadding);
    }
    let start = len - n as usize;
    let mut j: usize = start;
    while j < len
        invariant
            bytes@ == unpack(blocks@),
            len == bytes@.len(),
            n == bytes@.last(),
            start == len - n,
            start <= j <= len,
            forall|m: int| start <= m < j ==> bytes@[m] == n,
        decreases len - j,
    {
        if bytes[j] != n {
            return Err(CipherError::MalformedPadding);
        }
        j = j + 1;
    }
    bytes.truncate(start);
    Ok(bytes)
}

proof fn lemma_word_bytes(b0: u8, b1: u8, b2: u8, b3: u8, b4: u8, b5: u8, b6: u8, b7: u8)
    ensures
        ({
            let w = (b0 as u64) << 56u64 | (b1 as u64) << 48u64 | (b2 as u64) << 40u64 | (
            b3 as u64) << 32u64 | (b4 as u64) << 24u64 | (b5 as u64) << 16u64 | (b6 as u64)
                << 8u64 | (b7 as u64);
            &&& (w >> 56u64) as u8 == b0
            &&& (w >> 48u64) as u8 == b1
            &&& (w >> 40u64) as u8 == b2
            &&& (w >> 32u64) as u8 == b3
            &&& (w >> 24u64) as u8 == b4
            &&& (w >> 16u64) as u8 == b5
            &&& (w >> 8u64) as u8 == b6
            &&& (w >> 0u64) as u8 == b7
        }),
{
    assert({
        let w = (b0 as u64) << 56u64 | (b1 as u64) << 48u64 | (b2 as u64) << 40u64 | (b3 as u64)
            << 32u64 | (b4 as u64) << 24u64 | (b5 as u64) << 16u64 | (b6 as u64) << 8u64 | (
        b7 as u64);
        &&& (w >> 56u64) as u8 == b0
        &&& (w >> 48u64) as u8 == b1
        &&& (w >> 40u64) as u8 == b2
        &&& (w >> 32u64) as u8 == b3
        &&& (w >> 24u64) as u8 == b4
        &&& (w >> 16u64) as u8 == b5
        &&& (w >> 8u64) as u8 == b6
        &&& (w >> 0u64) as u8 == b7
    }) by (bit_vector);
}

proof fn lemma_bytes_word(x: u64)
    ensures
        x == ((x >> 56u64) as u8 as u64) << 56u64 | ((x >> 48u64) as u8 as u64) << 48u64 | ((x
            >> 40u64) as u8 as u64) << 40u64 | ((x >> 32u64) as u8 as u64) << 32u64 | ((x
            >> 24u64) as u8 as u64) << 24u64 | ((x >> 16u64) as u8 as u64) << 16u64 | ((x
            >> 8u64) as u8 as u64) << 8u64 | ((x >> 0u64) as u8 as u64),
{
    assert(x == ((x >> 56u64) as u8 as u64) << 56u64 | ((x >> 48u64) as u8 as u64) << 48u64 | ((x
        >> 40u64) as u8 as u64) << 40u64 | ((x >> 32u64) as u8 as u64) << 32u64 | ((x
        >> 24u64) as u8 as u64) << 24u64 | ((x >> 16u64) as u8 as u64) << 16u64 | ((x
        >> 8u64) as u8 as u64) << 8u64 | ((x >> 0u64) as u8 as u64)) by (bit_vector);
}

/// Flattening blocks to bytes and grouping them again gives back the blocks.
pub proof fn lemma_pack_unpack(bs: Seq<u64>)
    ensures
        pack(unpack(bs)) == bs,
{
    let b = unpack(bs);
    assert forall|i: int| 0 <= i < bs.len() implies #[trigger] block_at(b, i) == bs[i] by {
        assert forall|k: int| 0 <= k < 8 implies byte_or_zero_spec(b, 8 * i + k) == block_byte(
            bs[i],
            k,
        ) by {
            assert((8 * i + k) / 8 == i && (8 * i + k) % 8 == k);
        }
        lemma_bytes_word(bs[i]);
    }
    assert(pack(b) =~= bs);
}

/// Grouping bytes of a length divisible by 8 into blocks and flattening them again gives
/// back the bytes.
pub proof fn lemma_unpack_pack(b: Seq<u8>)
    requires
        b.len() % 8 == 0,
    ensures
        unpack(pack(b)) == b,
{
    let bs = pack(b);
    assert forall|j: int| 0 <= j < b.len() implies #[trigger] unpack(bs)[j] == b[j] by {
        let i = j / 8;
        assert(8 * i + j % 8 == j);
        assert(0 <= i < bs.len());
        lemma_word_bytes(
            byte_or_zero_spec(b, 8 * i),
            byte_or_zero_spec(b, 8 * i + 1),
            byte_or_zero_spec(b, 8 * i + 2),
            byte_or_zero_spec(b, 8 * i + 3),
            byte_or_zero_spec(b, 8 * i + 4),
            byte_or_zero_spec(b, 8 * i + 5),
            byte_or_zero_spec(b, 8 * i + 6),
            byte_or_zero_spec(b, 8 * i + 7),
        );
    }
    assert(unpack(bs) =~= b);
}

/// The padded data has a positive length divisible by 8.
pub proof fn lemma_pad_len(d: Seq<u8>)
    ensures
        pad(d).len() == d.len() + pad_len(d.len()),
        1 <= pad_len(d.len()) <= 8,
        pad(d).len() % 8 == 0,
        pad(d).len() > 0,
{
}

/// Stripping the padding from padded data gives back the data.
pub proof fn lemma_unpad_pad(d: Seq<u8>)
    ensures
        unpad(pad(d)) == Some(d),
{
    let b = pad(d);
    assert(b.last() == pad_len(d.len()));
    assert(b.subrange(0, b.len() - b.last()) =~= d);
}

/// Data whose length is already a multiple of 8 still gets a whole block of padding:
/// eight bytes of value 8.
pub proof fn lemma_aligned_data_gets_full_padding_block(d: Seq<u8>)
    requires
        d.len() % 8 == 0,
    ensures
        pad(d).len() == d.len() + 8,
        forall|j: int| d.len() <= j < d.len() + 8 ==> pad(d)[j] == 8,
        pack(pad(d)).len() == d.len() / 8 + 1,
{
}

/// A last byte of 0 or above 8 is never taken for padding.
pub proof fn lemma_unpad_rejects_bad_marker(b: Seq<u8>)
    requires
        b.len() > 0,
        b.last() == 0 || b.last() > 8,
    ensures
        unpad(b) is None,
{
}

} // verus!
