//! The calls into the `blake3` and `const_oid` crates, and what this library
//! assumes of them.
//!
//! A `blake3::Hasher` is modelled by three names: the bytes it has absorbed
//! (`hasher_input`), the key words and domain flags it was built with
//! (`hasher_mode`), and the input offset the crate's `hazmat` module may give
//! it (`hasher_input_offset`). The extendable output of the regular (unkeyed)
//! mode is named `blake3_xof`, a function of the absorbed bytes and of the
//! number of output bytes. The object identifiers of the parameter sets come
//! from `const_oid`'s database. Nothing in this file is proved: each item
//! states what the crate's documentation and source show.

use vstd::prelude::*;

verus! {

/// `blake3::Hasher`, the incremental BLAKE3 hash state; opaque to Verus.
#[verifier::external_type_specification]
#[verifier::external_body]
pub struct ExHasher(blake3::Hasher);

/// The bytes given to `update` (or `update_rayon`) of a `blake3::Hasher`
/// since it was created, in order. A hasher keeps a compressed state, not its
/// history; two hashers equal as values are taken to have absorbed the same
/// bytes, which can only fail through a collision of BLAKE3's compression
/// function.
pub uninterp spec fn hasher_input(h: blake3::Hasher) -> Seq<u8>;

/// The key words and domain flags of a `blake3::Hasher` (its fields `key`
/// and `chunk_state.flags`): they tell the regular, keyed and key-derivation
/// modes apart, and `update` never changes them.
pub uninterp spec fn hasher_mode(h: blake3::Hasher) -> (Seq<u32>, u8);

/// The input offset of a `blake3::Hasher` in bytes: zero unless it was set
/// with `hazmat::HasherExt::set_input_offset`.
pub uninterp spec fn hasher_input_offset(h: blake3::Hasher) -> u64;

/// The mode of `blake3::Hasher::new`: BLAKE3's IV as the key words, and no
/// domain flags.
pub open spec fn regular_mode() -> (Seq<u32>, u8) {
    (seq![
        0x6A09E667u32, 0xBB67AE85, 0x3C6EF372, 0xA54FF53A, 0x510E527F, 0x9B05688C, 0x1F83D9AB,
        0x5BE0CD19,
    ], 0u8)
}

/// The first `out_len` bytes of the BLAKE3 extendable output, in the regular
/// (unkeyed) mode, of the message `input`.
pub uninterp spec fn blake3_xof(input: Seq<u8>, out_len: nat) -> Seq<u8>;

/// Calls `blake3::Hasher::new`: a fresh hasher in the regular mode, without
/// input offset, which has absorbed nothing.
#[verifier::external_body]
pub(crate) fn new_hasher() -> (h: blake3::Hasher)
    ensures
        hasher_input(h) == Seq::<u8>::empty(),
        hasher_mode(h) == regular_mode(),
        hasher_input_offset(h) == 0,
{
    blake3::Hasher::new()
}

/// Calls `blake3::Hasher::update`: appends `input` to the bytes the hasher
/// has absorbed ("Add input bytes to the hash state. You can call this any
/// number of times"; its own doc example shows that several updates hash as
/// their concatenation), and keeps its mode and offset. With an input offset
/// the crate panics once the subtree it allows is full, so such hashers are
/// left out.
#[verifier::external_body]
pub(crate) fn hasher_update(h: &mut blake3::Hasher, input: &[u8])
    requires
        hasher_input_offset(*old(h)) == 0,
    ensures
        hasher_input(*final(h)) == hasher_input(*old(h)) + input@,
        hasher_mode(*final(h)) == hasher_mode(*old(h)),
        hasher_input_offset(*final(h)) == 0,
{
    h.update(input);
}

/// Calls `blake3::Hasher::update_rayon`, which the crate documents as
/// `update` with Rayon-based multithreading inside (both run the same
/// `update_with_join`): the same effect on the hasher, and the same panic
/// with an input offset, which is left out.
#[verifier::external_body]
pub(crate) fn hasher_update_rayon(h: &mut blake3::Hasher, input: &[u8])
    requires
        hasher_input_offset(*old(h)) == 0,
    ensures
        hasher_input(*final(h)) == hasher_input(*old(h)) + input@,
        hasher_mode(*final(h)) == hasher_mode(*old(h)),
        hasher_input_offset(*final(h)) == 0,
{
    h.update_rayon(input);
}

/// Calls `blake3::Hasher::finalize_xof` and then `OutputReader::fill` on the
/// fresh reader, for a hasher in the regular mode without input offset
/// (`finalize_xof` panics on an offset; other modes give another function).
/// The reader starts at position zero and `fill` writes the output stream in
/// order, so the buffer receives the first `out.len()` bytes of the stream,
/// and each shorter output is a prefix of it. The hasher is only borrowed.
#[verifier::external_body]
pub(crate) fn hasher_fill_xof(h: &blake3::Hasher, out: &mut [u8])
    requires
        hasher_mode(*h) == regular_mode(),
        hasher_input_offset(*h) == 0,
    ensures
        final(out)@.len() == old(out)@.len(),
        final(out)@ == blake3_xof(hasher_input(*h), old(out)@.len()),
        forall|k: nat|
            k <= old(out)@.len() ==> #[trigger] blake3_xof(hasher_input(*h), k) == final(out)@.take(
                k as int,
            ),
{
    h.finalize_xof().fill(out);
}

/// Calls `const_oid::db::fips205::ID_SLH_DSA_SHAKE_128_S.as_bytes()`: the
/// DER value bytes of the OID `2.16.840.1.101.3.4.3.26`, the one the
/// crate's source defines for that constant.
#[verifier::external_body]
pub(crate) fn oid_slh_dsa_shake_128_s() -> (der: Vec<u8>)
    ensures
        der@ == seq![0x60u8, 0x86, 0x48, 0x01, 0x65, 0x03, 0x04, 0x03, 0x1a],
{
    const_oid::db::fips205::ID_SLH_DSA_SHAKE_128_S.as_bytes().to_vec()
}

/// Calls `const_oid::db::fips205::ID_SLH_DSA_SHAKE_128_F.as_bytes()`: the
/// DER value bytes of the OID `2.16.840.1.101.3.4.3.27`, the one the
/// crate's source defines for that constant.
#[verifier::external_body]
pub(crate) fn oid_slh_dsa_shake_128_f() -> (der: Vec<u8>)
    ensures
        der@ == seq![0x60u8, 0x86, 0x48, 0x01, 0x65, 0x03, 0x04, 0x03, 0x1b],
{
    const_oid::db::fips205::ID_SLH_DSA_SHAKE_128_F.as_bytes().to_vec()
}

/// Calls `const_oid::db::fips205::ID_SLH_DSA_SHAKE_192_S.as_bytes()`: the
/// DER value bytes of the OID `2.16.840.1.101.3.4.3.28`, the one the
/// crate's source defines for that constant.
#[verifier::external_body]
pub(crate) fn oid_slh_dsa_shake_192_s() -> (der: Vec<u8>)
    ensures
        der@ == seq![0x60u8, 0x86, 0x48, 0x01, 0x65, 0x03, 0x04, 0x03, 0x1c],
{
    const_oid::db::fips205::ID_SLH_DSA_SHAKE_192_S.as_bytes().to_vec()
}

/// Calls `const_oid::db::fips205::ID_SLH_DSA_SHAKE_192_F.as_bytes()`: the
/// DER value bytes of the OID `2.16.840.1.101.3.4.3.29`, the one the
/// crate's source defines for that constant.
#[verifier::external_body]
pub(crate) fn oid_slh_dsa_shake_192_f() -> (der: Vec<u8>)
    ensures
        der@ == seq![0x60u8, 0x86, 0x48, 0x01, 0x65, 0x03, 0x04, 0x03, 0x1d],
{
    const_oid::db::fips205::ID_SLH_DSA_SHAKE_192_F.as_bytes().to_vec()
}

/// Calls `const_oid::db::fips205::ID_SLH_DSA_SHAKE_256_S.as_bytes()`: the
/// DER value bytes of the OID `2.16.840.1.101.3.4.3.30`, the one the
/// crate's source defines for that constant.
#[verifier::external_body]
pub(crate) fn oid_slh_dsa_shake_256_s() -> (der: Vec<u8>)
    ensures
        der@ == seq![0x60u8, 0x86, 0x48, 0x01, 0x65, 0x03, 0x04, 0x03, 0x1e],
{
    const_oid::db::fips205::ID_SLH_DSA_SHAKE_256_S.as_bytes().to_vec()
}

/// Calls `const_oid::db::fips205::ID_SLH_DSA_SHAKE_256_F.as_bytes()`: the
/// DER value bytes of the OID `2.16.840.1.101.3.4.3.31`, the one the
/// crate's source defines for that constant.
#[verifier::external_body]
pub(crate) fn oid_slh_dsa_shake_256_f() -> (der: Vec<u8>)
    ensures
        der@ == seq![0x60u8, 0x86, 0x48, 0x01, 0x65, 0x03, 0x04, 0x03, 0x1f],
{
    const_oid::db::fips205::ID_SLH_DSA_SHAKE_256_F.as_bytes().to_vec()
}

} // verus!
