//! The BLAKE3 hash suite: the six tweakable hash functions of SLH-DSA, each
//! the BLAKE3 extendable output of the concatenation of its inputs.

use vstd::prelude::*;
use crate::bytes::{slices_view, groups_view, concat_parts, concat_msg, memcpy_concat};
use crate::bytes::{lemma_concat_two, lemma_concat_three, lemma_concat_four};
use crate::outside::{
    hasher_input, hasher_mode, hasher_input_offset, regular_mode, blake3_xof, new_hasher,
    hasher_update, hasher_fill_xof,
};
use crate::absorb::xof_stream_prefix;
use crate::params::Blake3ParamSet;
use crate::absorb::{prf_msg_parallel_impl, h_msg_parallel_impl, xof_array};

verus! {

/// The views of a list of `N`-byte blocks.
pub open spec fn blocks_view<const N: usize>(m: Seq<[u8; N]>) -> Seq<Seq<u8>> {
    m.map_values(|b: [u8; N]| b@)
}

/// The BLAKE3-based hash suite with `N`-byte hash values and `M`-byte message
/// digests.
#[derive(Debug, Clone, Copy, PartialEq, Eq)]
pub struct Blake3<const N: usize, const M: usize> {}

impl<const N: usize, const M: usize> Blake3<N, M> {
    /// The parameter set of this suite, if it is one of the six: the set
    /// whose security parameter is `N` and whose digest length is `M`.
    pub fn param_set() -> (set: Option<Blake3ParamSet>)
        ensures
            set == (if N == 16 && M == 30 {
                Some(Blake3ParamSet::Blake3_128s)
            } else if N == 16 && M == 34 {
                Some(Blake3ParamSet::Blake3_128f)
            } else if N == 24 && M == 39 {
                Some(Blake3ParamSet::Blake3_192s)
            } else if N == 24 && M == 42 {
                Some(Blake3ParamSet::Blake3_192f)
            } else if N == 32 && M == 47 {
                Some(Blake3ParamSet::Blake3_256s)
            } else if N == 32 && M == 49 {
                Some(Blake3ParamSet::Blake3_256f)
            } else {
                None
            }),
            set matches Some(s) ==> s.table().n == N && s.table().m == M,
    {
        if N == 16 && M == 30 {
            Some(Blake3ParamSet::Blake3_128s)
        } else if N == 16 && M == 34 {
            Some(Blake3ParamSet::Blake3_128f)
        } else if N == 24 && M == 39 {
            Some(Blake3ParamSet::Blake3_192s)
        } else if N == 24 && M == 42 {
            Some(Blake3ParamSet::Blake3_192f)
        } else if N == 32 && M == 47 {
            Some(Blake3ParamSet::Blake3_256s)
        } else if N == 32 && M == 49 {
            Some(Blake3ParamSet::Blake3_256f)
        } else {
            None
        }
    }

    /// `PRF_msg`: the first `N` bytes of the extendable output of
    /// `sk_prf || opt_rand || msg`, where `msg` is the concatenation of all
    /// slices of all its groups.
    pub fn prf_msg(sk_prf: &[u8; N], opt_rand: &[u8; N], msg: &[&[&[u8]]]) -> (out: [u8; N])
        ensures
            out@ == blake3_xof(sk_prf@ + opt_rand@ + concat_msg(msg@), N as nat),
            xof_stream_prefix(sk_prf@ + opt_rand@ + concat_msg(msg@), out@),
{
        prf_msg_parallel_impl::<N>(sk_prf.as_slice(), opt_rand.as_slice(), msg)
    }

    /// `H_msg`: the first `M` bytes of the extendable output of
    /// `rand || pk_seed || pk_root || msg`.
    pub fn h_msg(rand: &[u8; N], pk_seed: &[u8; N], pk_root: &[u8; N], msg: &[&[&[u8]]]) -> (out: [u8; M])
        ensures
            out@ == blake3_xof(rand@ + pk_seed@ + pk_root@ + concat_msg(msg@), M as nat),
            xof_stream_prefix(rand@ + pk_seed@ + pk_root@ + concat_msg(msg@), out@),
{
        h_msg_parallel_impl::<M>(rand.as_slice(), pk_seed.as_slice(), pk_root.as_slice(), msg)
    }

    /// `PRF`: the first `N` bytes of the extendable output of
    /// `pk_seed || adrs || sk_seed`, where `adrs` is the byte encoding of the
    /// address.
    pub fn prf_sk(pk_seed: &[u8; N], sk_seed: &[u8; N], adrs: &[u8]) -> (out: [u8; N])
        ensures
            out@ == blake3_xof(pk_seed@ + adrs@ + sk_seed@, N as nat),
            xof_stream_prefix(pk_seed@ + adrs@ + sk_seed@, out@),
{
        let parts = [pk_seed.as_slice(), adrs, sk_seed.as_slice()];
        proof {
            lemma_concat_three(parts@);
        }
        xof_array::<N>(&parts)
    }

    /// `T_l`: the first `N` bytes of the extendable output of
    /// `pk_seed || adrs || m[0] || ... || m[l-1]`. The seed and the address
    /// are gathered in a 64-byte stack buffer, so together they may take at
    /// most 64 bytes; the blocks are then absorbed one by one.
    pub fn t(pk_seed: &[u8; N], adrs: &[u8], m: &[[u8; N]]) -> (out: [u8; N])
        requires
            N + adrs@.len() <= 64,
        ensures
            out@ == blake3_xof(pk_seed@ + adrs@ + blocks_view(m@).flatten(), N as nat),
            xof_stream_prefix(pk_seed@ + adrs@ + blocks_view(m@).flatten(), out@),
{
        let mut h = new_hasher();
        let mut buf = [0u8; 64];
        let prelude = [pk_seed.as_slice(), adrs];
        proof {
            lemma_concat_two(prelude@);
        }
        let used = memcpy_concat::<64>(&mut buf, &prelude);
        hasher_update(&mut h, vstd::slice::slice_subrange(buf.as_slice(), 0, used));
        let l = m.len();
        let mut i: usize = 0;
        assert(blocks_view(m@.take(0)).flatten() =~= Seq::<u8>::empty());
        assert(hasher_input(h) =~= pk_seed@ + adrs@ + blocks_view(m@.take(0)).flatten());
        while i < l
            invariant
                i <= l == m@.len(),
                hasher_mode(h) == regular_mode(),
                hasher_input_offset(h) == 0,
                hasher_input(h) == pk_seed@ + adrs@ + blocks_view(m@.take(i as int)).flatten(),
            decreases l - i,
        {
            let block = &m[i];
            hasher_update(&mut h, block.as_slice());
            proof {
                assert(blocks_view(m@.take(i + 1)) =~= blocks_view(m@.take(i as int)).push(m@[i as int]@));
                blocks_view(m@.take(i as int)).lemma_flatten_push(m@[i as int]@);
            }
            assert(hasher_input(h) =~= pk_seed@ + adrs@ + blocks_view(m@.take(i + 1)).flatten());
            i = i + 1;
        }
        assert(m@.take(l as int) =~= m@);
        let mut out = [0u8; N];
        hasher_fill_xof(&h, &mut out);
        out
    }

    /// `H`: the first `N` bytes of the extendable output of
    /// `pk_seed || adrs || m1 || m2`.
    pub fn h(pk_seed: &[u8; N], adrs: &[u8], m1: &[u8; N], m2: &[u8; N]) -> (out: [u8; N])
        ensures
            out@ == blake3_xof(pk_seed@ + adrs@ + m1@ + m2@, N as nat),
            xof_stream_prefix(pk_seed@ + adrs@ + m1@ + m2@, out@),
{
        let parts = [pk_seed.as_slice(), adrs, m1.as_slice(), m2.as_slice()];
        proof {
            lemma_concat_four(parts@);
        }
        xof_array::<N>(&parts)
    }

    /// `F`: the first `N` bytes of the extendable output of
    /// `pk_seed || adrs || m`.
    pub fn f(pk_seed: &[u8; N], adrs: &[u8], m: &[u8; N]) -> (out: [u8; N])
        ensures
            out@ == blake3_xof(pk_seed@ + adrs@ + m@, N as nat),
            xof_stream_prefix(pk_seed@ + adrs@ + m@, out@),
{
        let parts = [pk_seed.as_slice(), adrs, m.as_slice()];
        proof {
            lemma_concat_three(parts@);
        }
        xof_array::<N>(&parts)
    }
}

/// `t` over the two blocks `[m1, m2]` hashes what `h` hashes for `m1` and
/// `m2`: the two functions agree on every seed, address and pair of blocks.
pub proof fn lemma_t_of_two_blocks_is_h<const N: usize>(
    pk_seed: Seq<u8>,
    adrs: Seq<u8>,
    m1: [u8; N],
    m2: [u8; N],
)
    ensures
        blake3_xof(pk_seed + adrs + blocks_view(seq![m1, m2]).flatten(), N as nat)
            == blake3_xof(pk_seed + adrs + m1@ + m2@, N as nat),
{
    reveal_with_fuel(Seq::flatten, 3);
    let bv = blocks_view(seq![m1, m2]);
    assert(bv =~= seq![m1@, m2@]);
    assert(bv.drop_first().drop_first() =~= Seq::<Seq<u8>>::empty());
    assert(pk_seed + adrs + bv.flatten() =~= pk_seed + adrs + m1@ + m2@);
}

/// `t` over the single block `[m]` hashes what `f` hashes for `m`.
pub proof fn lemma_t_of_one_block_is_f<const N: usize>(pk_seed: Seq<u8>, adrs: Seq<u8>, m: [u8; N])
    ensures
        blake3_xof(pk_seed + adrs + blocks_view(seq![m]).flatten(), N as nat)
            == blake3_xof(pk_seed + adrs + m@, N as nat),
{
    let bv = blocks_view(seq![m]);
    assert(bv =~= seq![m@]);
    bv.lemma_flatten_one_element();
}

/// How a message is cut into groups and slices does not matter: two messages
/// with the same bytes in the same order give the same `prf_msg` and the
/// same `h_msg`.
pub proof fn lemma_msg_framing_irrelevant(
    msg1: Seq<&[&[u8]]>,
    msg2: Seq<&[&[u8]]>,
    prefix: Seq<u8>,
    out_len: nat,
)
    requires
        concat_msg(msg1) == concat_msg(msg2),
    ensures
        blake3_xof(prefix + concat_msg(msg1), out_len) == blake3_xof(prefix + concat_msg(msg2), out_len),
{
}

/// A message of one group holding one slice is that slice.
pub proof fn lemma_one_slice_msg(msg: Seq<&[&[u8]]>)
    requires
        msg.len() == 1,
        msg[0]@.len() == 1,
    ensures
        concat_msg(msg) == msg[0]@[0]@,
{
    let g = msg[0]@;
    assert(slices_view(g) =~= seq![g[0]@]);
    slices_view(g).lemma_flatten_one_element();
    assert(groups_view(msg) =~= seq![concat_parts(g)]);
    groups_view(msg).lemma_flatten_one_element();
}

} // verus!
