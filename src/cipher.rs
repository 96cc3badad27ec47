//! Password-based encryption and decryption of byte sequences: derive the state from the
//! password, pad and pack the data, and transform each block independently.
use vstd::prelude::*;

use crate::block::{
    decrypt_block, encrypt_block, feistel, lemma_decrypt_encrypt, rev_keys, sbox_view,
};
use crate::codec::{
    bytes_to_blocks, cyclic_byte, key_words, lemma_pack_unpack, lemma_pad_len,
    lemma_unpack_pack, lemma_unpad_pad, pack, pad, pad_and_pack, password_to_key,
    unpack, unpack_and_unpad, unpad, word_spec, blocks_to_bytes, MAX_PASSWORD_LEN,
};
use crate::error::CipherError;
use crate::schedule::{
    derive_state, derived, keyed_subkeys, lemma_schedule_len, lemma_state_parts, sboxes_of,
    subkeys_of, CipherState, SCHEDULE_STEPS,
};

verus! {

/// Whether a password has an accepted length: 1 to 56 bytes.
pub open spec fn password_ok(pw: Seq<u8>) -> bool {
    1 <= pw.len() <= MAX_PASSWORD_LEN
}

/// Each block encrypted under the state `st`.
pub open spec fn encrypt_blocks_spec(st: Seq<u32>, bs: Seq<u64>) -> Seq<u64> {
    Seq::new(bs.len(), |i: int| feistel(subkeys_of(st), sboxes_of(st), bs[i]))
}

/// Each block decrypted under the state `st`.
pub open spec fn decrypt_blocks_spec(st: Seq<u32>, bs: Seq<u64>) -> Seq<u64> {
    Seq::new(bs.len(), |i: int| feistel(rev_keys(subkeys_of(st)), sboxes_of(st), bs[i]))
}

/// The ciphertext of `d` under the password `pw`.
pub open spec fn encrypt_spec(pw: Seq<u8>, d: Seq<u8>) -> Result<Seq<u8>, CipherError> {
    if !password_ok(pw) {
        Err(CipherError::InvalidPasswordLength)
    } else {
        Ok(unpack(encrypt_blocks_spec(derived(key_words(pw)), pack(pad(d)))))
    }
}

/// The plaintext of `c` under the password `pw`.
pub open spec fn decrypt_spec(pw: Seq<u8>, c: Seq<u8>) -> Result<Seq<u8>, CipherError> {
    if !password_ok(pw) {
        Err(CipherError::InvalidPasswordLength)
    } else if c.len() == 0 || c.len() % 8 != 0 {
        Err(CipherError::InvalidLength)
    } else {
        match unpad(unpack(decrypt_blocks_spec(derived(key_words(pw)), pack(c)))) {
            Some(d) => Ok(d),
            None => Err(CipherError::MalformedPadding),
        }
    }
}

/// A byte result seen through the view of its bytes.
pub open spec fn bytes_result(r: Result<Vec<u8>, CipherError>) -> Result<Seq<u8>, CipherError> {
    match r {
        Ok(v) => Ok(v@),
        Err(e) => Err(e),
    }
}

/// Encrypts each block under the state.
fn encrypt_blocks(state: &CipherState, blocks: &Vec<u64>) -> (out: Vec<u64>)
    ensures
        out@ == encrypt_blocks_spec(state@, blocks@),
{
    proof {
        lemma_state_parts(state.p, state.s);
    }
    let mut out: Vec<u64> = Vec::new();
    let mut i: usize = 0;
    while i < blocks.len()
        invariant
            i <= blocks@.len(),
            subkeys_of(state@) == state.p@,
            sboxes_of(state@) == sbox_view(state.s),
            out@ =~= encrypt_blocks_spec(state@, blocks@).subrange(0, i as int),
        decreases blocks@.len() - i,
    {
        out.push(encrypt_block(blocks[i], &state.p, &state.s));
        i = i + 1;
    }
    out
}

/// Decrypts each block under the state.
fn decrypt_blocks(state: &CipherState, blocks: &Vec<u64>) -> (out: Vec<u64>)
    ensures
        out@ == decrypt_blocks_spec(state@, blocks@),
{
    proof {
        lemma_state_parts(state.p, state.s);
    }
    let mut out: Vec<u64> = Vec::new();
    let mut i: usize = 0;
    while i < blocks.len()
        invariant
            i <= blocks@.len(),
            subkeys_of(state@) == state.p@,
            sboxes_of(state@) == sbox_view(state.s),
            out@ =~= decrypt_blocks_spec(state@, blocks@).subrange(0, i as int),
        decreases blocks@.len() - i,
    {
        out.push(decrypt_block(blocks[i], &state.p, &state.s));
        i = i + 1;
    }
    out
}

/// Encrypts `plaintext` under `password`; fails with `InvalidPasswordLength` when the
/// password is empty or longer than 56 bytes.
pub fn encrypt(password: &[u8], plaintext: &[u8]) -> (r: Result<Vec<u8>, CipherError>)
    requires
        plaintext@.len() + 16 <= usize::MAX,
    ensures
        bytes_result(r) == encrypt_spec(password@, plaintext@),
{
    if password.len() == 0 || password.len() > MAX_PASSWORD_LEN {
        return Err(CipherError::InvalidPasswordLength);
    }
    let state = derive_state(password_to_key(password));
    let blocks = pad_and_pack(plaintext);
    proof {
        lemma_pad_len(plaintext@);
    }
    let out = encrypt_blocks(&state, &blocks);
    Ok(blocks_to_bytes(&out))
}

/// Decrypts `ciphertext` under `password`; fails with `InvalidPasswordLength` when the
/// password is empty or longer than 56 bytes, with `InvalidLength` when the ciphertext
/// length is not a positive multiple of 8, and with `MalformedPadding` when the decrypted
/// bytes do not end in a well-formed padding.
pub fn decrypt(password: &[u8], ciphertext: &[u8]) -> (r: Result<Vec<u8>, CipherError>)
    ensures
        bytes_result(r) == decrypt_spec(password@, ciphertext@),
{
    if password.len() == 0 || password.len() > MAX_PASSWORD_LEN {
        return Err(CipherError::InvalidPasswordLength);
    }
    if ciphertext.len() == 0 || ciphertext.len() % 8 != 0 {
        return Err(CipherError::InvalidLength);
    }
    let state = derive_state(password_to_key(password));
    let blocks = bytes_to_blocks(ciphertext);
    let out = decrypt_blocks(&state, &blocks);
    unpack_and_unpad(&out)
}

/// Decrypting the encryption of any data under any accepted password gives back the data.
pub proof fn lemma_round_trip(pw: Seq<u8>, d: Seq<u8>)
    requires
        password_ok(pw),
    ensures
        encrypt_spec(pw, d) is Ok,
        decrypt_spec(pw, encrypt_spec(pw, d)->Ok_0) == Ok::<Seq<u8>, CipherError>(d),
{
    let st = derived(key_words(pw));
    let x = pack(pad(d));
    let e = encrypt_blocks_spec(st, x);
    let c = unpack(e);
    assert(encrypt_spec(pw, d) == Ok::<Seq<u8>, CipherError>(c));
    lemma_pad_len(d);
    assert(x.len() > 0);
    assert(c.len() == 8 * e.len());
    lemma_pack_unpack(e);
    lemma_decrypt_blocks_encrypt_blocks(st, x, key_words(pw));
    lemma_unpack_pack(pad(d));
    lemma_unpad_pad(d);
    assert(unpad(unpack(decrypt_blocks_spec(st, pack(c)))) == Some(d));
}

/// The ciphertext holds one block more than the whole blocks of the plaintext.
pub proof fn lemma_ciphertext_len(pw: Seq<u8>, d: Seq<u8>)
    requires
        password_ok(pw),
    ensures
        encrypt_spec(pw, d)->Ok_0.len() == 8 * (d.len() / 8 + 1),
{
    lemma_pad_len(d);
    assert(pad(d).len() == 8 * (d.len() / 8 + 1));
    assert(pack(pad(d)).len() == d.len() / 8 + 1);
}

proof fn lemma_decrypt_blocks_encrypt_blocks(st: Seq<u32>, x: Seq<u64>, key: Seq<u32>)
    requires
        st == derived(key),
    ensures
        decrypt_blocks_spec(st, encrypt_blocks_spec(st, x)) == x,
{
    lemma_schedule_len(key, SCHEDULE_STEPS as nat);
    let e = encrypt_blocks_spec(st, x);
    assert forall|i: int| 0 <= i < x.len() implies #[trigger] decrypt_blocks_spec(st, e)[i]
        == x[i] by {
        lemma_decrypt_encrypt(subkeys_of(st), sboxes_of(st), x[i]);
    }
    assert(decrypt_blocks_spec(st, e) =~= x);
}

proof fn lemma_word_injective(a: u8, b: u8, c: u8, d: u8, a2: u8, b2: u8, c2: u8, d2: u8)
    requires
        word_spec(a, b, c, d) == word_spec(a2, b2, c2, d2),
    ensures
        a == a2 && b == b2 && c == c2 && d == d2,
{
    assert((a as u32) << 24u32 | (b as u32) << 16u32 | (c as u32) << 8u32 | (d as u32) == (
    a2 as u32) << 24u32 | (b2 as u32) << 16u32 | (c2 as u32) << 8u32 | (d2 as u32) ==> a == a2
        && b == b2 && c == c2 && d == d2) by (bit_vector);
}

/// Flipping one bit of an accepted password changes its key words, and with them the
/// subkeys that the bootstrap starts from (the digits of pi with the key words xored in).
pub proof fn lemma_one_bit_changes_keyed_subkeys(p: Seq<u8>, j: int, bit: u8)
    requires
        password_ok(p),
        0 <= j < p.len(),
        bit < 8,
    ensures
        key_words(p) != key_words(p.update(j, p[j] ^ (1u8 << bit))),
        keyed_subkeys(key_words(p)) != keyed_subkeys(key_words(p.update(j, p[j] ^ (1u8 << bit)))),
{
    let q = p.update(j, p[j] ^ (1u8 << bit));
    let x = p[j];
    assert(x ^ (1u8 << bit) != x) by (bit_vector)
        requires
            bit < 8,
    ;
    let i = j / 4;
    assert(4 * i + j % 4 == j);
    vstd::arithmetic::div_mod::lemma_small_mod(j as nat, p.len());
    assert(cyclic_byte(p, j) != cyclic_byte(q, j));
    let kp = key_words(p);
    let kq = key_words(q);
    if kp[i] == kq[i] {
        lemma_word_injective(
            cyclic_byte(p, 4 * i),
            cyclic_byte(p, 4 * i + 1),
            cyclic_byte(p, 4 * i + 2),
            cyclic_byte(p, 4 * i + 3),
            cyclic_byte(q, 4 * i),
            cyclic_byte(q, 4 * i + 1),
            cyclic_byte(q, 4 * i + 2),
            cyclic_byte(q, 4 * i + 3),
        );
    }
    let pi = crate::tables::PI_P[i];
    let (u, v) = (kp[i], kq[i]);
    assert(u != v ==> pi ^ u != pi ^ v) by (bit_vector);
    assert(keyed_subkeys(kp)[i] != keyed_subkeys(kq)[i]);
}

} // verus!
