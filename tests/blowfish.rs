use blowfish::tables::{PI_P, PI_S};
use blowfish::{
    blocks_to_bytes, bytes_to_blocks, combine, decrypt, decrypt_block, derive_state, encrypt,
    encrypt_block, f, generate_arrays, pad_and_pack, password_to_key, quartets, split,
    unpack_and_unpad, CipherError,
};

fn hex(s: &str) -> Vec<u8> {
    (0..s.len())
        .step_by(2)
        .map(|i| u8::from_str_radix(&s[i..i + 2], 16).unwrap())
        .collect()
}

#[test]
fn quartets_most_significant_first() {
    assert_eq!(quartets(&0x12345678), (0x12, 0x34, 0x56, 0x78));
}

#[test]
fn split_and_combine_halves() {
    assert_eq!(split(&0x0123456789abcdef), (0x01234567, 0x89abcdef));
    assert_eq!(combine(&0x01234567, &0x89abcdef), 0x0123456789abcdef);
}

#[test]
fn round_function_on_pi_boxes() {
    assert_eq!(f(&0x01020304, &PI_S), 0x3cedff8c);
}

#[test]
fn block_under_pi_tables() {
    assert_eq!(encrypt_block(0x0123456789abcdef, &PI_P, &PI_S), 0x738e078d4c8703a6);
    assert_eq!(decrypt_block(0x738e078d4c8703a6, &PI_P, &PI_S), 0x0123456789abcdef);
}

#[test]
fn known_answer_all_zero_key() {
    let (p, s) = generate_arrays([0; 14]);
    assert_eq!(encrypt_block(0, &p, &s), 0x4ef997456198dd78);
    assert_eq!(decrypt_block(0x4ef997456198dd78, &p, &s), 0);
}

#[test]
fn derived_state_for_short_password() {
    let st = derive_state(password_to_key(b"key"));
    assert_eq!(st.p[0], 0x98cd0780);
    assert_eq!(st.p[17], 0x2a493c82);
    assert_eq!(st.s[0][0], 0x598719ac);
    assert_eq!(st.s[3][255], 0x27069055);
    assert_eq!(encrypt_block(0x0123456789abcdef, &st.p, &st.s), 0x81e64f55be157d3a);
}

#[test]
fn block_decrypt_inverts_encrypt() {
    let st = derive_state(password_to_key(b"secret"));
    for b in [0u64, 1, 0xffff_ffff_ffff_ffff, 0x0123456789abcdef, 0x8000_0000_0000_0000] {
        let c = encrypt_block(b, &st.p, &st.s);
        assert_eq!(decrypt_block(c, &st.p, &st.s), b);
    }
}

#[test]
fn password_key_words_wrap_cyclically() {
    let key = password_to_key(b"key");
    assert_eq!(key[0], 0x6b65796b);
    assert_eq!(key[1], 0x65796b65);
    assert_eq!(key[2], 0x796b6579);
    assert_eq!(key[13], 0x65796b65);
}

#[test]
fn password_of_max_length_fills_key() {
    let pw: Vec<u8> = (1..=56).collect();
    let key = password_to_key(&pw);
    assert_eq!(key[0], 0x01020304);
    assert_eq!(key[13], 0x35363738);
}

#[test]
fn bytes_to_blocks_fills_partial_block_with_zeros() {
    assert_eq!(bytes_to_blocks(&[1, 2, 3]), vec![0x0102030000000000]);
    assert_eq!(
        bytes_to_blocks(&[1, 2, 3, 4, 5, 6, 7, 8, 9]),
        vec![0x0102030405060708, 0x0900000000000000]
    );
    assert_eq!(bytes_to_blocks(&[]), Vec::<u64>::new());
}

#[test]
fn blocks_to_bytes_big_endian() {
    assert_eq!(
        blocks_to_bytes(&vec![0x0102030405060708, 0xff00000000000001]),
        vec![1, 2, 3, 4, 5, 6, 7, 8, 0xff, 0, 0, 0, 0, 0, 0, 1]
    );
    assert_eq!(blocks_to_bytes(&vec![]), Vec::<u8>::new());
}

#[test]
fn pad_and_pack_partial_block() {
    assert_eq!(pad_and_pack(&[1, 2, 3]), vec![0x0102030505050505]);
}

#[test]
fn pad_and_pack_aligned_input_gets_full_block() {
    assert_eq!(pad_and_pack(&[]), vec![0x0808080808080808]);
    assert_eq!(
        pad_and_pack(&[1, 2, 3, 4, 5, 6, 7, 8]),
        vec![0x0102030405060708, 0x0808080808080808]
    );
}

#[test]
fn unpack_and_unpad_strips_padding() {
    assert_eq!(unpack_and_unpad(&vec![0x0102030405030303]), Ok(vec![1, 2, 3, 4, 5]));
    assert_eq!(unpack_and_unpad(&vec![0x0808080808080808]), Ok(vec![]));
}

#[test]
fn unpack_and_unpad_rejects_zero_marker() {
    assert_eq!(
        unpack_and_unpad(&vec![0x0102030405060700]),
        Err(CipherError::MalformedPadding)
    );
}

#[test]
fn unpack_and_unpad_rejects_marker_above_eight() {
    assert_eq!(
        unpack_and_unpad(&vec![0x0102030405060709]),
        Err(CipherError::MalformedPadding)
    );
}

#[test]
fn unpack_and_unpad_rejects_inconsistent_padding() {
    assert_eq!(
        unpack_and_unpad(&vec![0x0102030405060203]),
        Err(CipherError::MalformedPadding)
    );
}

#[test]
fn unpack_and_unpad_rejects_empty() {
    assert_eq!(unpack_and_unpad(&vec![]), Err(CipherError::MalformedPadding));
}

#[test]
fn encrypt_empty_gives_one_padding_block() {
    let c = encrypt(b"test", b"").unwrap();
    assert_eq!(c, hex("7cfc6f97c4a6ed16"));
    let st = derive_state(password_to_key(b"test"));
    let block = decrypt_block(bytes_to_blocks(&c)[0], &st.p, &st.s);
    assert_eq!(block, 0x0808080808080808);
    assert_eq!(decrypt(b"test", &c), Ok(vec![]));
}

#[test]
fn encrypt_known_ciphertexts() {
    assert_eq!(
        encrypt(b"key", b"hello world!").unwrap(),
        hex("cca569c1aa0339f732a93a656f3b0c88")
    );
    let pw: Vec<u8> = (1..=56).collect();
    assert_eq!(
        encrypt(&pw, b"abcdefgh").unwrap(),
        hex("e14fc59b2932865ba77a726c6d14fe5d")
    );
}

#[test]
fn round_trip_various_lengths() {
    let data: Vec<u8> = (0..40u8).map(|i| i.wrapping_mul(37)).collect();
    for pw in [&b"k"[..], b"key", b"a much longer password of many bytes"] {
        for n in [0, 1, 7, 8, 9, 16, 40] {
            let c = encrypt(pw, &data[..n]).unwrap();
            assert_eq!(c.len() % 8, 0);
            assert_eq!(c.len(), (n / 8 + 1) * 8);
            assert_eq!(decrypt(pw, &c), Ok(data[..n].to_vec()));
        }
    }
}

#[test]
fn encryption_is_deterministic() {
    let a = encrypt(b"pw", b"same input").unwrap();
    let b = encrypt(b"pw", b"same input").unwrap();
    assert_eq!(a, b);
    assert_eq!(decrypt(b"pw", &a), decrypt(b"pw", &b));
    let s1 = derive_state(password_to_key(b"pw"));
    let s2 = derive_state(password_to_key(b"pw"));
    assert_eq!(s1.p, s2.p);
    assert_eq!(s1.s, s2.s);
}

#[test]
fn one_bit_password_change_changes_subkeys() {
    // 'y' and 'x' differ in the lowest bit only
    let a = derive_state(password_to_key(b"key"));
    let b = derive_state(password_to_key(b"kex"));
    assert_ne!(a.p, b.p);
    assert_ne!(password_to_key(b"key"), password_to_key(b"kex"));
}

#[test]
fn encrypt_rejects_empty_password() {
    assert_eq!(encrypt(b"", &[1, 2, 3]), Err(CipherError::InvalidPasswordLength));
}

#[test]
fn encrypt_rejects_long_password() {
    let pw = vec![b'a'; 57];
    assert_eq!(encrypt(&pw, &[1, 2, 3]), Err(CipherError::InvalidPasswordLength));
    assert_eq!(decrypt(&pw, &[0; 8]), Err(CipherError::InvalidPasswordLength));
}

#[test]
fn decrypt_rejects_unaligned_length() {
    assert_eq!(decrypt(b"key", &[1, 2, 3, 4, 5]), Err(CipherError::InvalidLength));
    assert_eq!(decrypt(b"key", &[]), Err(CipherError::InvalidLength));
}

#[test]
fn decrypt_with_wrong_password_is_malformed() {
    let c = encrypt(b"other", b"hello").unwrap();
    assert_eq!(c, hex("e129c0882a992731"));
    assert_eq!(decrypt(b"key", &c), Err(CipherError::MalformedPadding));
}
