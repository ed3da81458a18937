//! Byte sequences built from lists of slices.

use vstd::prelude::*;
use vstd::seq_lib::lemma_flatten_concat;

verus! {

/// The views of a list of byte slices.
pub open spec fn slices_view(parts: Seq<&[u8]>) -> Seq<Seq<u8>> {
    parts.map_values(|p: &[u8]| p@)
}

/// The concatenation of a list of byte slices.
pub open spec fn concat_parts(parts: Seq<&[u8]>) -> Seq<u8> {
    slices_view(parts).flatten()
}


/// Each group of a message, as the concatenation of its slices.
pub open spec fn groups_view(msg: Seq<&[&[u8]]>) -> Seq<Seq<u8>> {
    msg.map_values(|g: &[&[u8]]| concat_parts(g@))
}

/// A message given as groups of slices, as one byte sequence: all slices of
/// all groups, in order.
pub open spec fn concat_msg(msg: Seq<&[&[u8]]>) -> Seq<u8> {
    groups_view(msg).flatten()
}

/// Concatenating the first `i + 1` groups appends group `i` to the
/// concatenation of the first `i`.
pub proof fn lemma_concat_msg_step(msg: Seq<&[&[u8]]>, i: int)
    requires
        0 <= i < msg.len(),
    ensures
        concat_msg(msg.take(i + 1)) == concat_msg(msg.take(i)) + concat_parts(msg[i]@),
{
    assert(groups_view(msg.take(i + 1)) =~= groups_view(msg.take(i)).push(concat_parts(msg[i]@)));
    groups_view(msg.take(i)).lemma_flatten_push(concat_parts(msg[i]@));
}

/// The concatenation of the first `i` groups is a prefix of the whole
/// message.
pub proof fn lemma_concat_msg_prefix(msg: Seq<&[&[u8]]>, i: int)
    requires
        0 <= i <= msg.len(),
    ensures
        concat_msg(msg) == concat_msg(msg.take(i)) + concat_msg(msg.skip(i)),
{
    let gv = groups_view(msg);
    assert(groups_view(msg.take(i)) =~= gv.take(i));
    assert(groups_view(msg.skip(i)) =~= gv.skip(i));
    assert(gv.take(i) + gv.skip(i) =~= gv);
    lemma_flatten_concat(gv.take(i), gv.skip(i));
}

/// The bytes of the groups before group `i`, followed by the first `j + 1`
/// slices of group `i`, are no more than the whole message.
pub proof fn lemma_segment_within_msg(msg: Seq<&[&[u8]]>, i: int, j: int)
    requires
        0 <= i < msg.len(),
        0 <= j < msg[i]@.len(),
    ensures
        concat_msg(msg.take(i)).len() + concat_parts(msg[i]@.take(j + 1)).len()
            <= concat_msg(msg).len(),
{
    lemma_concat_msg_prefix(msg, i + 1);
    lemma_concat_msg_step(msg, i);
    lemma_concat_parts_prefix(msg[i]@, j + 1);
}

/// The concatenation of two slices.
pub proof fn lemma_concat_two(parts: Seq<&[u8]>)
    requires
        parts.len() == 2,
    ensures
        concat_parts(parts) == parts[0]@ + parts[1]@,
{
    reveal_with_fuel(Seq::flatten, 3);
    assert(slices_view(parts).drop_first().drop_first() =~= Seq::<Seq<u8>>::empty());
    assert(concat_parts(parts) =~= parts[0]@ + parts[1]@);
}

/// The concatenation of three slices.
pub proof fn lemma_concat_three(parts: Seq<&[u8]>)
    requires
        parts.len() == 3,
    ensures
        concat_parts(parts) == parts[0]@ + parts[1]@ + parts[2]@,
{
    reveal_with_fuel(Seq::flatten, 4);
    assert(slices_view(parts).drop_first().drop_first().drop_first() =~= Seq::<Seq<u8>>::empty());
    assert(concat_parts(parts) =~= parts[0]@ + parts[1]@ + parts[2]@);
}

/// The concatenation of four slices.
pub proof fn lemma_concat_four(parts: Seq<&[u8]>)
    requires
        parts.len() == 4,
    ensures
        concat_parts(parts) == parts[0]@ + parts[1]@ + parts[2]@ + parts[3]@,
{
    reveal_with_fuel(Seq::flatten, 5);
    assert(slices_view(parts).drop_first().drop_first().drop_first().drop_first()
        =~= Seq::<Seq<u8>>::empty());
    assert(concat_parts(parts) =~= parts[0]@ + parts[1]@ + parts[2]@ + parts[3]@);
}

/// Concatenating the first `i + 1` slices appends slice `i` to the
/// concatenation of the first `i`.
pub proof fn lemma_concat_parts_step(parts: Seq<&[u8]>, i: int)
    requires
        0 <= i < parts.len(),
    ensures
        concat_parts(parts.take(i + 1)) == concat_parts(parts.take(i)) + parts[i]@,
{
    assert(slices_view(parts.take(i + 1)) =~= slices_view(parts.take(i)).push(parts[i]@));
    slices_view(parts.take(i)).lemma_flatten_push(parts[i]@);
}

/// The concatenation of the first `i` slices is a prefix of the whole
/// concatenation.
pub proof fn lemma_concat_parts_prefix(parts: Seq<&[u8]>, i: int)
    requires
        0 <= i <= parts.len(),
    ensures
        concat_parts(parts) == concat_parts(parts.take(i)) + concat_parts(parts.skip(i)),
{
    let sv = slices_view(parts);
    assert(slices_view(parts.take(i)) =~= sv.take(i));
    assert(slices_view(parts.skip(i)) =~= sv.skip(i));
    assert(sv.take(i) + sv.skip(i) =~= sv);
    lemma_flatten_concat(sv.take(i), sv.skip(i));
}

/// Copies `src` into `dst` at offset `off`, leaving every other byte as it
/// was.
pub(crate) fn copy_at<const CAP: usize>(dst: &mut [u8; CAP], off: usize, src: &[u8])
    requires
        off + src@.len() <= CAP,
    ensures
        final(dst)@ == old(dst)@.take(off as int) + src@ + old(dst)@.skip(off + src@.len()),
{
    let n = src.len();
    let mut j: usize = 0;
    while j < n
        invariant
            j <= n == src@.len(),
            off + n <= CAP,
            dst@.len() == CAP,
            dst@ == old(dst)@.take(off as int) + src@.take(j as int) + old(dst)@.skip(off + j),
        decreases n - j,
    {
        dst[off + j] = src[j];
        assert(src@.take(j + 1) =~= src@.take(j as int).push(src@[j as int]));
        assert(dst@ =~= old(dst)@.take(off as int) + src@.take(j + 1) + old(dst)@.skip(off + j + 1));
        j = j + 1;
    }
    assert(src@.take(n as int) =~= src@);
}

/// Writes the concatenation of `parts` to the front of `dst` and returns its
/// length; the bytes of `dst` past that length are left as they were. The
/// concatenation must fit in `dst`.
pub fn memcpy_concat<const CAP: usize>(dst: &mut [u8; CAP], parts: &[&[u8]]) -> (used: usize)
    requires
        concat_parts(parts@).len() <= CAP,
    ensures
        used == concat_parts(parts@).len(),
        final(dst)@.take(used as int) == concat_parts(parts@),
        final(dst)@.skip(used as int) == old(dst)@.skip(used as int),
{
    let mut off: usize = 0;
    let k = parts.len();
    let mut i: usize = 0;
    while i < k
        invariant
            i <= k == parts@.len(),
            concat_parts(parts@).len() <= CAP,
            dst@.len() == CAP,
            off == concat_parts(parts@.take(i as int)).len(),
            dst@ == concat_parts(parts@.take(i as int)) + old(dst)@.skip(off as int),
        decreases k - i,
    {
        let p = parts[i];
        proof {
            lemma_concat_parts_step(parts@, i as int);
            lemma_concat_parts_prefix(parts@, i + 1);
        }
        copy_at(dst, off, p);
        assert(dst@ =~= concat_parts(parts@.take(i + 1)) + old(dst)@.skip(off + p@.len()));
        off = off + p.len();
        i = i + 1;
    }
    assert(parts@.take(k as int) =~= parts@);
    assert(dst@.take(off as int) =~= concat_parts(parts@));
    assert(dst@.skip(off as int) =~= old(dst)@.skip(off as int));
    off
}

/// `start` plus the total length of `parts`, or `usize::MAX` where that sum
/// does not fit.
pub fn total_len(start: usize, parts: &[&[u8]]) -> (t: usize)
    ensures
        t == (if start + concat_parts(parts@).len() <= usize::MAX {
            start + concat_parts(parts@).len()
        } else {
            usize::MAX as int
        }),
{
    let k = parts.len();
    let mut t = start;
    let mut i: usize = 0;
    while i < k
        invariant
            i <= k == parts@.len(),
            t == (if start + concat_parts(parts@.take(i as int)).len() <= usize::MAX {
                start + concat_parts(parts@.take(i as int)).len()
            } else {
                usize::MAX as int
            }),
        decreases k - i,
    {
        proof {
            lemma_concat_parts_step(parts@, i as int);
        }
        t = t.saturating_add(parts[i].len());
        i = i + 1;
    }
    assert(parts@.take(k as int) =~= parts@);
    t
}

/// `start` plus the total length of all slices of `msg`, or `usize::MAX`
/// where that sum does not fit.
pub fn total_msg_len(start: usize, msg: &[&[&[u8]]]) -> (t: usize)
    ensures
        t == (if start + concat_msg(msg@).len() <= usize::MAX {
            start + concat_msg(msg@).len()
        } else {
            usize::MAX as int
        }),
{
    let k = msg.len();
    let mut t = start;
    let mut i: usize = 0;
    while i < k
        invariant
            i <= k == msg@.len(),
            t == (if start + concat_msg(msg@.take(i as int)).len() <= usize::MAX {
                start + concat_msg(msg@.take(i as int)).len()
            } else {
                usize::MAX as int
            }),
        decreases k - i,
    {
        proof {
            lemma_concat_msg_step(msg@, i as int);
        }
        t = total_len(t, msg[i]);
        i = i + 1;
    }
    assert(msg@.take(k as int) =~= msg@);
    t
}

/// Writes every slice of every group of `msg` into `dst` from offset `off`
/// on, and returns the offset just past them; the bytes before `off` and past
/// the returned offset are left as they were.
pub(crate) fn gather_msg<const CAP: usize>(dst: &mut [u8; CAP], off: usize, msg: &[&[&[u8]]]) -> (end: usize)
    requires
        off + concat_msg(msg@).len() <= CAP,
    ensures
        end == off + concat_msg(msg@).len(),
        final(dst)@ == old(dst)@.take(off as int) + concat_msg(msg@) + old(dst)@.skip(end as int),
{
    let k = msg.len();
    let mut pos = off;
    let mut i: usize = 0;
    assert(concat_msg(msg@.take(0)) =~= Seq::<u8>::empty());
    assert(old(dst)@ =~= old(dst)@.take(off as int) + Seq::<u8>::empty() + old(dst)@.skip(off as int));
    while i < k
        invariant
            i <= k == msg@.len(),
            off + concat_msg(msg@).len() <= CAP,
            dst@.len() == CAP,
            pos == off + concat_msg(msg@.take(i as int)).len(),
            dst@ == old(dst)@.take(off as int) + concat_msg(msg@.take(i as int)) + old(dst)@.skip(pos as int),
        decreases k - i,
    {
        let segs = msg[i];
        let n = segs.len();
        let mut j: usize = 0;
        proof {
            lemma_concat_msg_prefix(msg@, i as int);
            lemma_concat_msg_prefix(msg@.skip(i as int), 1);
            assert(msg@.skip(i as int).take(1) =~= seq![segs]);
            assert(concat_msg(seq![segs]) == concat_parts(segs@)) by {
                assert(groups_view(seq![segs]) =~= seq![concat_parts(segs@)]);
                groups_view(seq![segs]).lemma_flatten_one_element();
            }
            assert(concat_parts(segs@.take(0)) =~= Seq::<u8>::empty());
            assert(dst@ =~= old(dst)@.take(off as int) + concat_msg(msg@.take(i as int))
                + concat_parts(segs@.take(0)) + old(dst)@.skip(pos as int));
        }
        let ghost base = pos;
        while j < n
            invariant
                i < k == msg@.len(),
                segs == msg@[i as int],
                j <= n == segs@.len(),
                base + concat_parts(segs@).len() <= CAP,
                dst@.len() == CAP,
                pos == base + concat_parts(segs@.take(j as int)).len(),
                base == off + concat_msg(msg@.take(i as int)).len(),
                dst@ == old(dst)@.take(off as int) + concat_msg(msg@.take(i as int))
                    + concat_parts(segs@.take(j as int)) + old(dst)@.skip(pos as int),
            decreases n - j,
        {
            let s = segs[j];
            proof {
                lemma_concat_parts_step(segs@, j as int);
                lemma_concat_parts_prefix(segs@, j + 1);
            }
            copy_at(dst, pos, s);
            assert(dst@ =~= old(dst)@.take(off as int) + concat_msg(msg@.take(i as int))
                + concat_parts(segs@.take(j + 1)) + old(dst)@.skip(pos + s@.len()));
            pos = pos + s.len();
            j = j + 1;
        }
        proof {
            assert(segs@.take(n as int) =~= segs@);
            lemma_concat_msg_step(msg@, i as int);
        }
        assert(dst@ =~= old(dst)@.take(off as int) + concat_msg(msg@.take(i + 1)) + old(dst)@.skip(pos as int));
        i = i + 1;
    }
    assert(msg@.take(k as int) =~= msg@);
    pos
}

} // verus!
