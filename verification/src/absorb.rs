//! Feeding byte slices to a BLAKE3 hasher and reading its extendable output.
//!
//! Small inputs are first gathered in a stack buffer and absorbed in one
//! call; long ones are streamed, the longest slices through the
//! multithreaded update. Every path absorbs exactly the concatenation of the
//! inputs, so the output never depends on the path taken.

use vstd::prelude::*;
use crate::bytes::{
    concat_parts, concat_msg, lemma_concat_parts_step, lemma_concat_msg_step,
    lemma_segment_within_msg,
    lemma_concat_two, lemma_concat_three, total_len, total_msg_len,
    memcpy_concat, gather_msg,
};
use crate::outside::{
    hasher_input, hasher_mode, hasher_input_offset, regular_mode, blake3_xof, new_hasher, hasher_update,
    hasher_update_rayon, hasher_fill_xof,
};

verus! {

/// A slice at least this long is absorbed on its own, with the multithreaded
/// update.
pub const PAR_RAYON_BYTES: usize = 256 * 1024;

/// Shorter slices are gathered in a buffer of about this many bytes before
/// they are absorbed.
pub const COALESCE_CAP: usize = 64 * 1024;

/// Absorbs what `buf` holds, if anything, and empties it; an empty buffer
/// leaves the hasher untouched.
fn flush_buffer(h: &mut blake3::Hasher, buf: &mut Vec<u8>)
    requires
        hasher_input_offset(*old(h)) == 0,
    ensures
        hasher_input(*final(h)) == hasher_input(*old(h)) + old(buf)@,
        old(buf)@.len() == 0 ==> *final(h) == *old(h),
        hasher_mode(*final(h)) == hasher_mode(*old(h)),
        hasher_input_offset(*final(h)) == 0,
        final(buf)@ == Seq::<u8>::empty(),
{
    if !buf.is_empty() {
        hasher_update(h, buf.as_slice());
        buf.clear();
    } else {
        assert(hasher_input(*h) + buf@ =~= hasher_input(*h));
    }
}

/// Absorbs every slice of every group of `msg`, in order: slices of at least
/// `PAR_RAYON_BYTES` bytes with the multithreaded update, shorter ones
/// gathered in a buffer of about `COALESCE_CAP` bytes first. The hasher keeps
/// its mode; it must have no input offset (the `blake3` crate panics when a
/// hasher with an offset receives more than its subtree holds). A message
/// without bytes leaves the hasher untouched: no call is made on it.
pub fn update_msg_parts_parallel(h: &mut blake3::Hasher, msg: &[&[&[u8]]])
    requires
        hasher_input_offset(*old(h)) == 0,
    ensures
        hasher_input(*final(h)) == hasher_input(*old(h)) + concat_msg(msg@),
        concat_msg(msg@).len() == 0 ==> *final(h) == *old(h),
        hasher_mode(*final(h)) == hasher_mode(*old(h)),
        hasher_input_offset(*final(h)) == 0,
{
    let mut buf: Vec<u8> = Vec::with_capacity(COALESCE_CAP);
    let k = msg.len();
    let mut i: usize = 0;
    assert(concat_msg(msg@.take(0)) =~= Seq::<u8>::empty());
    while i < k
        invariant
            i <= k == msg@.len(),
            buf@.len() < PAR_RAYON_BYTES,
            hasher_mode(*h) == hasher_mode(*old(h)),
            hasher_input_offset(*h) == 0,
            hasher_input(*h) + buf@ == hasher_input(*old(h)) + concat_msg(msg@.take(i as int)),
            concat_msg(msg@).len() == 0 ==> (*h == *old(h) && buf@.len() == 0),
        decreases k - i,
    {
        let segs = msg[i];
        let n = segs.len();
        let mut j: usize = 0;
        assert(concat_parts(segs@.take(0)) =~= Seq::<u8>::empty());
        assert(hasher_input(*h) + buf@ == hasher_input(*old(h)) + concat_msg(msg@.take(i as int))
            + concat_parts(segs@.take(0)));
        while j < n
            invariant
                i < k == msg@.len(),
                segs == msg@[i as int],
                j <= n == segs@.len(),
                buf@.len() < PAR_RAYON_BYTES,
                hasher_mode(*h) == hasher_mode(*old(h)),
                hasher_input_offset(*h) == 0,
                hasher_input(*h) + buf@ == hasher_input(*old(h)) + concat_msg(msg@.take(i as int))
                    + concat_parts(segs@.take(j as int)),
                concat_msg(msg@).len() == 0 ==> (*h == *old(h) && buf@.len() == 0),
            decreases n - j,
        {
            let s = segs[j];
            proof {
                lemma_concat_parts_step(segs@, j as int);
                lemma_segment_within_msg(msg@, i as int, j as int);
            }
            let ghost before = hasher_input(*h) + buf@;
            if s.len() >= PAR_RAYON_BYTES {
                flush_buffer(h, &mut buf);
                hasher_update_rayon(h, s);
                assert(hasher_input(*h) + buf@ =~= before + s@);
            } else {
                if buf.len() + s.len() > COALESCE_CAP {
                    flush_buffer(h, &mut buf);
                }
                let ghost mid = buf@;
                buf.extend_from_slice(s);
                assert(buf@ =~= mid + s@);
                assert(hasher_input(*h) + buf@ =~= before + s@);
            }
            assert(hasher_input(*h) + buf@ =~= hasher_input(*old(h)) + concat_msg(msg@.take(i as int))
                + concat_parts(segs@.take(j + 1)));
            j = j + 1;
        }
        proof {
            assert(segs@.take(n as int) =~= segs@);
            lemma_concat_msg_step(msg@, i as int);
        }
        assert(hasher_input(*h) + buf@ =~= hasher_input(*old(h)) + concat_msg(msg@.take(i + 1)));
        i = i + 1;
    }
    flush_buffer(h, &mut buf);
    assert(msg@.take(k as int) =~= msg@);
}

/// A fresh hasher, as `update_msg_parts_parallel` takes it: regular mode, no
/// input offset, nothing absorbed.
pub fn new_regular_hasher() -> (h: blake3::Hasher)
    ensures
        hasher_input(h) == Seq::<u8>::empty(),
        hasher_mode(h) == regular_mode(),
        hasher_input_offset(h) == 0,
{
    new_hasher()
}

/// `out` is the start of the extendable output of `input`: it is the output
/// of its own length, and each of its prefixes is the output of that length.
pub open spec fn xof_stream_prefix(input: Seq<u8>, out: Seq<u8>) -> bool {
    &&& out == blake3_xof(input, out.len())
    &&& forall|k: nat| k <= out.len() ==> #[trigger] blake3_xof(input, k) == out.take(k as int)
}

/// Outputs of the extendable output function nest: an output of `input` is
/// a prefix of every longer output of `input` that is known to start the
/// output stream.
pub proof fn lemma_xof_outputs_nest(input: Seq<u8>, short: Seq<u8>, long: Seq<u8>)
    requires
        short == blake3_xof(input, short.len()),
        xof_stream_prefix(input, long),
        short.len() <= long.len(),
    ensures
        short == long.take(short.len() as int),
{
    assert(blake3_xof(input, short.len()) == long.take(short.len() as int));
}

/// Inputs of at most this many bytes are gathered in a stack buffer and
/// absorbed in one call.
pub const TINY_INPUT_BYTES: usize = 384;

/// Absorbs the slices of `parts`, in order, one call each.
fn update_parts(h: &mut blake3::Hasher, parts: &[&[u8]])
    requires
        hasher_input_offset(*old(h)) == 0,
    ensures
        hasher_input(*final(h)) == hasher_input(*old(h)) + concat_parts(parts@),
        hasher_mode(*final(h)) == hasher_mode(*old(h)),
        hasher_input_offset(*final(h)) == 0,
{
    let k = parts.len();
    let mut i: usize = 0;
    assert(concat_parts(parts@.take(0)) =~= Seq::<u8>::empty());
    while i < k
        invariant
            i <= k == parts@.len(),
            hasher_mode(*h) == hasher_mode(*old(h)),
            hasher_input_offset(*h) == 0,
            hasher_input(*h) == hasher_input(*old(h)) + concat_parts(parts@.take(i as int)),
        decreases k - i,
    {
        proof {
            lemma_concat_parts_step(parts@, i as int);
        }
        hasher_update(h, parts[i]);
        assert(hasher_input(*h) =~= hasher_input(*old(h)) + concat_parts(parts@.take(i + 1)));
        i = i + 1;
    }
    assert(parts@.take(k as int) =~= parts@);
}

/// Fills `out` with the BLAKE3 extendable output of the concatenation of
/// `parts`. An input of at most `TINY_INPUT_BYTES` bytes is gathered on the
/// stack and absorbed at once; a longer one is absorbed slice by slice.
pub fn blake3_xof_into(parts: &[&[u8]], out: &mut [u8])
    ensures
        final(out)@.len() == old(out)@.len(),
        final(out)@ == blake3_xof(concat_parts(parts@), old(out)@.len()),
        xof_stream_prefix(concat_parts(parts@), final(out)@),
{
    let mut h = new_hasher();
    let total = total_len(0, parts);
    if total <= TINY_INPUT_BYTES {
        let mut buf = [0u8; 384];
        let used = memcpy_concat::<384>(&mut buf, parts);
        let gathered = vstd::slice::slice_subrange(buf.as_slice(), 0, used);
        hasher_update(&mut h, gathered);
        assert(hasher_input(h) =~= concat_parts(parts@));
    } else {
        update_parts(&mut h, parts);
        assert(hasher_input(h) =~= concat_parts(parts@));
    }
    hasher_fill_xof(&h, out);
}

/// The first `N` bytes of the BLAKE3 extendable output of the concatenation
/// of `parts`.
pub fn xof_array<const N: usize>(parts: &[&[u8]]) -> (out: [u8; N])
    ensures
        out@ == blake3_xof(concat_parts(parts@), N as nat),
        xof_stream_prefix(concat_parts(parts@), out@),
{
    let mut out = [0u8; N];
    blake3_xof_into(parts, &mut out);
    out
}

/// The first `N` bytes of the BLAKE3 extendable output of the slices of
/// `header` followed by those of `msg`. When the whole input is at most
/// `TINY_INPUT_BYTES` bytes it is gathered on the stack and absorbed at once;
/// otherwise it is streamed, `msg` through `update_msg_parts_parallel`.
fn xof_header_msg<const N: usize>(header: &[&[u8]], msg: &[&[&[u8]]]) -> (out: [u8; N])
    ensures
        out@ == blake3_xof(concat_parts(header@) + concat_msg(msg@), N as nat),
        xof_stream_prefix(concat_parts(header@) + concat_msg(msg@), out@),
{
    let total = total_msg_len(total_len(0, header), msg);
    let mut h = new_hasher();
    if total <= TINY_INPUT_BYTES {
        let mut buf = [0u8; 384];
        let off = memcpy_concat::<384>(&mut buf, header);
        let end = gather_msg(&mut buf, off, msg);
        let gathered = vstd::slice::slice_subrange(buf.as_slice(), 0, end);
        assert(gathered@ =~= concat_parts(header@) + concat_msg(msg@));
        hasher_update(&mut h, gathered);
    } else {
        update_parts(&mut h, header);
        update_msg_parts_parallel(&mut h, msg);
    }
    assert(hasher_input(h) =~= concat_parts(header@) + concat_msg(msg@));
    let mut out = [0u8; N];
    hasher_fill_xof(&h, &mut out);
    out
}

/// `prf_msg` of the suite: the first `N` bytes of the extendable output of
/// `sk_prf || opt_rand || msg`.
pub fn prf_msg_parallel_impl<const N: usize>(sk_prf: &[u8], opt_rand: &[u8], msg: &[&[&[u8]]]) -> (out: [u8; N])
    ensures
        out@ == blake3_xof(sk_prf@ + opt_rand@ + concat_msg(msg@), N as nat),
        xof_stream_prefix(sk_prf@ + opt_rand@ + concat_msg(msg@), out@),
{
    let header = [sk_prf, opt_rand];
    proof {
        lemma_concat_two(header@);
    }
    xof_header_msg::<N>(&header, msg)
}

/// `h_msg` of the suite: the first `M` bytes of the extendable output of
/// `rand || pk_seed || pk_root || msg`.
pub fn h_msg_parallel_impl<const M: usize>(
    rand: &[u8],
    pk_seed: &[u8],
    pk_root: &[u8],
    msg: &[&[&[u8]]],
) -> (out: [u8; M])
    ensures
        out@ == blake3_xof(rand@ + pk_seed@ + pk_root@ + concat_msg(msg@), M as nat),
        xof_stream_prefix(rand@ + pk_seed@ + pk_root@ + concat_msg(msg@), out@),
{
    let header = [rand, pk_seed, pk_root];
    proof {
        lemma_concat_three(header@);
    }
    xof_header_msg::<M>(&header, msg)
}

} // verus!
