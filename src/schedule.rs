//! The key schedule: from 14 key words to the full cipher state (18 subkeys and four
//! S-boxes), by encrypting a running block with the state while it is being built.
use vstd::prelude::*;

use crate::block::{encrypt_block, feistel, sbox_view, split, split_spec};
use crate::tables::{PI_P, PI_S};

verus! {

/// Number of state words: 18 subkeys and 4 * 256 S-box entries.
pub const STATE_WORDS: usize = 1042;

/// Number of encryptions the bootstrap performs, each filling two state words.
pub const SCHEDULE_STEPS: usize = 521;

/// The whole cipher state as one sequence: the subkeys, then the four S-boxes end to end.
/// This is also the order in which the bootstrap overwrites it.
pub open spec fn state_view(p: [u32; 18], s: [[u32; 256]; 4]) -> Seq<u32> {
    p@ + sbox_view(s)
}

/// The subkeys of a state sequence.
pub open spec fn subkeys_of(st: Seq<u32>) -> Seq<u32> {
    st.subrange(0, 18)
}

/// The S-boxes of a state sequence, end to end.
pub open spec fn sboxes_of(st: Seq<u32>) -> Seq<u32> {
    st.subrange(18, STATE_WORDS as int)
}

/// The subkeys from the digits of pi, with the 14 key words xored into the first 14.
pub open spec fn keyed_subkeys(key: Seq<u32>) -> Seq<u32> {
    Seq::new(18, |i: int| if i < 14 { PI_P[i] ^ key[i] } else { PI_P[i] })
}

/// The state and the running block after `n` steps of the bootstrap. Step `j` encrypts
/// the running block under the current state and writes its high and low halves to
/// state words `2 * j` and `2 * j + 1`.
pub open spec fn schedule(key: Seq<u32>, n: nat) -> (Seq<u32>, u64)
    decreases n,
{
    if n == 0 {
        (keyed_subkeys(key) + sbox_view(PI_S), 0u64)
    } else {
        let (st, blk) = schedule(key, (n - 1) as nat);
        let c = feistel(subkeys_of(st), sboxes_of(st), blk);
        let (hi, lo) = split_spec(c);
        (st.update(2 * (n - 1), hi).update(2 * (n - 1) + 1, lo), c)
    }
}

/// The cipher state that the 14 key words derive.
pub open spec fn derived(key: Seq<u32>) -> Seq<u32> {
    schedule(key, SCHEDULE_STEPS as nat).0
}

/// The state after the bootstrap always has all its words.
pub proof fn lemma_schedule_len(key: Seq<u32>, n: nat)
    requires
        n <= SCHEDULE_STEPS,
    ensures
        schedule(key, n).0.len() == STATE_WORDS,
    decreases n,
{
    if n > 0 {
        lemma_schedule_len(key, (n - 1) as nat);
    } else {
        assert((keyed_subkeys(key) + sbox_view(PI_S)).len() == 18 + 1024);
    }
}

/// A state read back through `state_view` gives its own subkeys and S-boxes.
pub proof fn lemma_state_parts(p: [u32; 18], s: [[u32; 256]; 4])
    ensures
        subkeys_of(state_view(p, s)) == p@,
        sboxes_of(state_view(p, s)) == sbox_view(s),
{
    assert(subkeys_of(state_view(p, s)) =~= p@);
    assert(sboxes_of(state_view(p, s)) =~= sbox_view(s));
}

/// Creates the subkeys and the S-boxes from the key words and the digits of pi.
pub fn generate_arrays(key: [u32; 14]) -> (r: ([u32; 18], [[u32; 256]; 4]))
    ensures
        state_view(r.0, r.1) == derived(key@),
{
    let mut p: [u32; 18] = PI_P;
    let mut s: [[u32; 256]; 4] = PI_S;

    let mut i: usize = 0;
    while i < 14
        invariant
            i <= 14,
            forall|j: int| 0 <= j < 18 ==> p[j] == (if j < i { PI_P[j] ^ key[j] } else { PI_P[j] }),
        decreases 14 - i,
    {
        p[i] = p[i] ^ key[i];
        i = i + 1;
    }
    assert(state_view(p, s) =~= schedule(key@, 0).0);

    let mut blk: u64 = 0;
    // the subkeys first, two words per encryption
    let mut k: usize = 0;
    while k < 9
        invariant
            k <= 9,
            (state_view(p, s), blk) == schedule(key@, k as nat),
        decreases 9 - k,
    {
        proof {
            lemma_state_parts(p, s);
        }
        blk = encrypt_block(blk, &p, &s);
        let (hi, lo) = split(&blk);
        let ghost st = state_view(p, s);
        p[2 * k] = hi;
        p[2 * k + 1] = lo;
        assert(state_view(p, s) =~= st.update(2 * k as int, hi).update(2 * k + 1, lo));
        k = k + 1;
    }

    // then each S-box in turn, two entries per encryption
    let mut b: usize = 0;
    while b < 4
        invariant
            b <= 4,
            (state_view(p, s), blk) == schedule(key@, (9 + 128 * b) as nat),
        decreases 4 - b,
    {
        let mut k: usize = 0;
        while k < 128
            invariant
                b < 4,
                k <= 128,
                (state_view(p, s), blk) == schedule(key@, (9 + 128 * b + k) as nat),
            decreases 128 - k,
        {
            proof {
                lemma_state_parts(p, s);
            }
            blk = encrypt_block(blk, &p, &s);
            let (hi, lo) = split(&blk);
            let ghost st = state_view(p, s);
            s[b][2 * k] = hi;
            s[b][2 * k + 1] = lo;
            assert(state_view(p, s) =~= st.update(18 + 256 * b + 2 * k, hi).update(
                18 + 256 * b + 2 * k + 1,
                lo,
            ));
            k = k + 1;
        }
        b = b + 1;
    }
    (p, s)
}

} // verus!

verus! {

/// The cipher state: 18 subkeys and four S-boxes of 256 entries.
pub struct CipherState {
    pub p: [u32; 18],
    pub s: [[u32; 256]; 4],
}

impl View for CipherState {
    type V = Seq<u32>;

    open spec fn view(&self) -> Seq<u32> {
        state_view(self.p, self.s)
    }
}

/// Derives the cipher state from the 14 key words.
pub fn derive_state(key: [u32; 14]) -> (st: CipherState)
    ensures
        st@ == derived(key@),
{
    let (p, s) = generate_arrays(key);
    CipherState { p, s }
}

} // verus!
