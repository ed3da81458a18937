//! The six SLH-DSA parameter sets that use the BLAKE3 hash suite. Their
//! numbers mirror those of the SHAKE parameter sets; their names are their
//! own, and for now they reuse the SHAKE object identifiers.

use vstd::prelude::*;
use crate::outside::{
    oid_slh_dsa_shake_128_s, oid_slh_dsa_shake_128_f, oid_slh_dsa_shake_192_s,
    oid_slh_dsa_shake_192_f, oid_slh_dsa_shake_256_s, oid_slh_dsa_shake_256_f,
};
use crate::suite::Blake3;

verus! {

/// 128s: small signatures.
#[allow(non_camel_case_types)]
pub type Blake3_128s = Blake3<16, 30>;

/// 128f: fast signing.
#[allow(non_camel_case_types)]
pub type Blake3_128f = Blake3<16, 34>;

/// 192s: small signatures.
#[allow(non_camel_case_types)]
pub type Blake3_192s = Blake3<24, 39>;

/// 192f: fast signing.
#[allow(non_camel_case_types)]
pub type Blake3_192f = Blake3<24, 42>;

/// 256s: small signatures.
#[allow(non_camel_case_types)]
pub type Blake3_256s = Blake3<32, 47>;

/// 256f: fast signing.
#[allow(non_camel_case_types)]
pub type Blake3_256f = Blake3<32, 49>;

/// The numbers of an SLH-DSA parameter set.
#[derive(Debug, Clone, Copy, PartialEq, Eq)]
pub struct SlhParams {
    /// Security parameter: bytes of a hash value (`N` of the suite).
    pub n: usize,
    /// Bytes of the message digest (`M` of the suite).
    pub m: usize,
    /// WOTS+ chains that sign the message (`len1`).
    pub wots_msg_len: usize,
    /// All WOTS+ chains, checksum included (`len`).
    pub wots_sig_len: usize,
    /// Height of one XMSS tree (`h'`).
    pub h_prime: usize,
    /// Layers of the hypertree (`d`).
    pub d: usize,
    /// Height of the hypertree (`h`).
    pub h: usize,
    /// FORS trees (`k`).
    pub k: usize,
    /// Height of a FORS tree (`a`).
    pub a: usize,
    /// Bytes of the digest that select FORS leaves (`ceil(k * a / 8)`).
    pub md: usize,
}

/// `x / 8`, rounded up.
pub open spec fn ceil_div8(x: int) -> int {
    (x + 7) / 8
}

impl SlhParams {
    /// The relations FIPS 205 sets between the numbers of a parameter set,
    /// with Winternitz parameter 16: `len1 = 2n`, `len = len1 + 3`,
    /// `h = d * h'`, `md = ceil(k*a/8)`, and a digest that holds `md` bytes
    /// of FORS indices, `ceil((h - h')/8)` bytes of tree index and
    /// `ceil(h'/8)` bytes of leaf index.
    pub open spec fn consistent(self) -> bool {
        &&& self.wots_msg_len == 2 * self.n
        &&& self.wots_sig_len == self.wots_msg_len + 3
        &&& self.h == self.d * self.h_prime
        &&& self.md == ceil_div8(self.k * self.a)
        &&& self.m == self.md + ceil_div8(self.h - self.h_prime) + ceil_div8(self.h_prime as int)
    }

    /// Bytes of an SLH-DSA signature with these numbers (FIPS 205, section
    /// 9): the randomizer `R` (`n` bytes), the FORS signature (`k` trees, each
    /// a secret value and `a` authentication nodes, `n` bytes apiece) and the
    /// hypertree signature (`d` layers, each `len` WOTS+ chain values and `h'`
    /// authentication nodes).
    pub open spec fn signature_bytes(self) -> int {
        self.n * (1 + self.k * (1 + self.a) + self.d * (self.wots_sig_len + self.h_prime))
    }
}

/// The row of FIPS 205, Table 2, for the SHAKE parameter set that each
/// BLAKE3 set mirrors, as `(n, h, d, h', a, k, lg_w, m, pk_bytes)`: security
/// parameter, hypertree height, layers, XMSS tree height, FORS tree height,
/// FORS trees, Winternitz exponent, digest bytes and public-key bytes.
pub open spec fn fips205_shake_row(set: Blake3ParamSet) -> (int, int, int, int, int, int, int, int, int) {
    match set {
        Blake3ParamSet::Blake3_128s => (16, 63, 7, 9, 12, 14, 4, 30, 32),
        Blake3ParamSet::Blake3_128f => (16, 66, 22, 3, 6, 33, 4, 34, 32),
        Blake3ParamSet::Blake3_192s => (24, 63, 7, 9, 14, 17, 4, 39, 48),
        Blake3ParamSet::Blake3_192f => (24, 66, 22, 3, 8, 33, 4, 42, 48),
        Blake3ParamSet::Blake3_256s => (32, 64, 8, 8, 14, 22, 4, 47, 64),
        Blake3ParamSet::Blake3_256f => (32, 68, 17, 4, 9, 35, 4, 49, 64),
    }
}

/// `p` has the numbers of the FIPS 205 row `row`: each listed number is
/// equal, the WOTS+ message length is `8n / lg_w` (`len1`) with three
/// checksum chains after it, and the public key (seed and root) takes `2n`
/// bytes.
pub open spec fn matches_fips205_row(
    p: SlhParams,
    row: (int, int, int, int, int, int, int, int, int),
) -> bool {
    let (n, h, d, h_prime, a, k, lg_w, m, pk_bytes) = row;
    &&& p.n == n
    &&& p.h == h
    &&& p.d == d
    &&& p.h_prime == h_prime
    &&& p.a == a
    &&& p.k == k
    &&& p.m == m
    &&& p.wots_msg_len * lg_w == 8 * n
    &&& p.wots_sig_len == p.wots_msg_len + 3
    &&& 2 * p.n == pk_bytes
}

/// The signature sizes that FIPS 205 (Table 2) gives for the SHAKE parameter
/// sets that the BLAKE3 sets mirror: 7856, 17088, 16224, 35664, 29792 and
/// 49856 bytes.
pub open spec fn fips205_signature_bytes(set: Blake3ParamSet) -> int {
    match set {
        Blake3ParamSet::Blake3_128s => 7856,
        Blake3ParamSet::Blake3_128f => 17088,
        Blake3ParamSet::Blake3_192s => 16224,
        Blake3ParamSet::Blake3_192f => 35664,
        Blake3ParamSet::Blake3_256s => 29792,
        Blake3ParamSet::Blake3_256f => 49856,
    }
}

/// The parameter sets of the BLAKE3 suite.
#[allow(non_camel_case_types)]
#[derive(Debug, Clone, Copy, PartialEq, Eq)]
pub enum Blake3ParamSet {
    Blake3_128s,
    Blake3_128f,
    Blake3_192s,
    Blake3_192f,
    Blake3_256s,
    Blake3_256f,
}

impl Blake3ParamSet {
    /// The numbers of each parameter set.
    pub open spec fn table(self) -> SlhParams {
        match self {
            Blake3ParamSet::Blake3_128s => SlhParams {
                n: 16, m: 30, wots_msg_len: 32, wots_sig_len: 35, h_prime: 9, d: 7, h: 63,
                k: 14, a: 12, md: 21,
            },
            Blake3ParamSet::Blake3_128f => SlhParams {
                n: 16, m: 34, wots_msg_len: 32, wots_sig_len: 35, h_prime: 3, d: 22, h: 66,
                k: 33, a: 6, md: 25,
            },
            Blake3ParamSet::Blake3_192s => SlhParams {
                n: 24, m: 39, wots_msg_len: 48, wots_sig_len: 51, h_prime: 9, d: 7, h: 63,
                k: 17, a: 14, md: 30,
            },
            Blake3ParamSet::Blake3_192f => SlhParams {
                n: 24, m: 42, wots_msg_len: 48, wots_sig_len: 51, h_prime: 3, d: 22, h: 66,
                k: 33, a: 8, md: 33,
            },
            Blake3ParamSet::Blake3_256s => SlhParams {
                n: 32, m: 47, wots_msg_len: 64, wots_sig_len: 67, h_prime: 8, d: 8, h: 64,
                k: 22, a: 14, md: 39,
            },
            Blake3ParamSet::Blake3_256f => SlhParams {
                n: 32, m: 49, wots_msg_len: 64, wots_sig_len: 67, h_prime: 4, d: 17, h: 68,
                k: 35, a: 9, md: 40,
            },
        }
    }

    /// The numbers of this parameter set.
    pub fn params(&self) -> (p: SlhParams)
        ensures
            p == self.table(),
            p.consistent(),
            p.signature_bytes() == fips205_signature_bytes(*self),
            matches_fips205_row(p, fips205_shake_row(*self)),
    {
        proof {
            lemma_mirrors_fips205_shake_sets(*self);
            lemma_parameter_sets_consistent(*self);
            lemma_signature_sizes_match_fips205(*self);
        }
        match self {
            Blake3ParamSet::Blake3_128s => SlhParams {
                n: 16, m: 30, wots_msg_len: 32, wots_sig_len: 35, h_prime: 9, d: 7, h: 63,
                k: 14, a: 12, md: (12 * 14usize + 7) / 8,
            },
            Blake3ParamSet::Blake3_128f => SlhParams {
                n: 16, m: 34, wots_msg_len: 32, wots_sig_len: 35, h_prime: 3, d: 22, h: 66,
                k: 33, a: 6, md: 25,
            },
            Blake3ParamSet::Blake3_192s => SlhParams {
                n: 24, m: 39, wots_msg_len: 24 * 2, wots_sig_len: 24 * 2 + 3, h_prime: 9, d: 7,
                h: 63, k: 17, a: 14, md: (14 * 17usize + 7) / 8,
            },
            Blake3ParamSet::Blake3_192f => SlhParams {
                n: 24, m: 42, wots_msg_len: 24 * 2, wots_sig_len: 24 * 2 + 3, h_prime: 3, d: 22,
                h: 66, k: 33, a: 8, md: (33 * 8usize + 7) / 8,
            },
            Blake3ParamSet::Blake3_256s => SlhParams {
                n: 32, m: 47, wots_msg_len: 32 * 2, wots_sig_len: 32 * 2 + 3, h_prime: 8, d: 8,
                h: 64, k: 22, a: 14, md: (14 * 22usize + 7) / 8,
            },
            Blake3ParamSet::Blake3_256f => SlhParams {
                n: 32, m: 49, wots_msg_len: 32 * 2, wots_sig_len: 32 * 2 + 3, h_prime: 4, d: 17,
                h: 68, k: 35, a: 9, md: (35 * 9usize + 7) / 8,
            },
        }
    }

    /// The name of this parameter set.
    pub fn name(&self) -> (name: &'static str)
        ensures
            name@ == (match self {
                Blake3ParamSet::Blake3_128s => "SLH-DSA-BLAKE3-128s"@,
                Blake3ParamSet::Blake3_128f => "SLH-DSA-BLAKE3-128f"@,
                Blake3ParamSet::Blake3_192s => "SLH-DSA-BLAKE3-192s"@,
                Blake3ParamSet::Blake3_192f => "SLH-DSA-BLAKE3-192f"@,
                Blake3ParamSet::Blake3_256s => "SLH-DSA-BLAKE3-256s"@,
                Blake3ParamSet::Blake3_256f => "SLH-DSA-BLAKE3-256f"@,
            }),
    {
        match self {
            Blake3ParamSet::Blake3_128s => "SLH-DSA-BLAKE3-128s",
            Blake3ParamSet::Blake3_128f => "SLH-DSA-BLAKE3-128f",
            Blake3ParamSet::Blake3_192s => "SLH-DSA-BLAKE3-192s",
            Blake3ParamSet::Blake3_192f => "SLH-DSA-BLAKE3-192f",
            Blake3ParamSet::Blake3_256s => "SLH-DSA-BLAKE3-256s",
            Blake3ParamSet::Blake3_256f => "SLH-DSA-BLAKE3-256f",
        }
    }

    /// The DER value bytes of the object identifier of this parameter set:
    /// for now that of the SHAKE parameter set with the same numbers,
    /// `2.16.840.1.101.3.4.3.26` to `.31`.
    pub fn algorithm_oid_der(&self) -> (der: Vec<u8>)
        ensures
            der@ == seq![0x60u8, 0x86, 0x48, 0x01, 0x65, 0x03, 0x04, 0x03, (match self {
                Blake3ParamSet::Blake3_128s => 0x1au8,
                Blake3ParamSet::Blake3_128f => 0x1bu8,
                Blake3ParamSet::Blake3_192s => 0x1cu8,
                Blake3ParamSet::Blake3_192f => 0x1du8,
                Blake3ParamSet::Blake3_256s => 0x1eu8,
                Blake3ParamSet::Blake3_256f => 0x1fu8,
            })],
    {
        match self {
            Blake3ParamSet::Blake3_128s => oid_slh_dsa_shake_128_s(),
            Blake3ParamSet::Blake3_128f => oid_slh_dsa_shake_128_f(),
            Blake3ParamSet::Blake3_192s => oid_slh_dsa_shake_192_s(),
            Blake3ParamSet::Blake3_192f => oid_slh_dsa_shake_192_f(),
            Blake3ParamSet::Blake3_256s => oid_slh_dsa_shake_256_s(),
            Blake3ParamSet::Blake3_256f => oid_slh_dsa_shake_256_f(),
        }
    }
}

/// Every BLAKE3 parameter set keeps the relations of FIPS 205 between its
/// numbers: WOTS+ lengths from `n`, hypertree height from layers and tree
/// height, and a digest length `m` that is exactly what FORS and the tree and
/// leaf indices take.
pub proof fn lemma_parameter_sets_consistent(set: Blake3ParamSet)
    ensures
        set.table().consistent(),
{
    match set {
        Blake3ParamSet::Blake3_128s => assert(7 * 9 == 63 && 14 * 12 == 168),
        Blake3ParamSet::Blake3_128f => assert(22 * 3 == 66 && 33 * 6 == 198),
        Blake3ParamSet::Blake3_192s => assert(7 * 9 == 63 && 17 * 14 == 238),
        Blake3ParamSet::Blake3_192f => assert(22 * 3 == 66 && 33 * 8 == 264),
        Blake3ParamSet::Blake3_256s => assert(8 * 8 == 64 && 22 * 14 == 308),
        Blake3ParamSet::Blake3_256f => assert(17 * 4 == 68 && 35 * 9 == 315),
    }
}

/// Each BLAKE3 parameter set has the numbers FIPS 205 publishes for the
/// SHAKE parameter set of the same name: every tree count and tree height in
/// its place, the digest length, and WOTS+ lengths and public-key size
/// derived from `n` as the standard derives them.
pub proof fn lemma_mirrors_fips205_shake_sets(set: Blake3ParamSet)
    ensures
        matches_fips205_row(set.table(), fips205_shake_row(set)),
{
    match set {
        Blake3ParamSet::Blake3_128s => {},
        Blake3ParamSet::Blake3_128f => {},
        Blake3ParamSet::Blake3_192s => {},
        Blake3ParamSet::Blake3_192f => {},
        Blake3ParamSet::Blake3_256s => {},
        Blake3ParamSet::Blake3_256f => {},
    }
}

/// The numbers of every BLAKE3 parameter set give signatures of exactly the
/// size FIPS 205 publishes for the SHAKE set it mirrors. Together with the
/// relations of `consistent`, this fixes which number is the count and which
/// the height: the FORS trees (`k` against `a`) and the hypertree (`d`
/// layers against trees of height `h'`) add up to different signature sizes
/// when exchanged.
pub proof fn lemma_signature_sizes_match_fips205(set: Blake3ParamSet)
    ensures
        set.table().signature_bytes() == fips205_signature_bytes(set),
{
    match set {
        Blake3ParamSet::Blake3_128s => assert(16 * (1 + 14 * 13 + 7 * (35 + 9)) == 7856),
        Blake3ParamSet::Blake3_128f => assert(16 * (1 + 33 * 7 + 22 * (35 + 3)) == 17088),
        Blake3ParamSet::Blake3_192s => assert(24 * (1 + 17 * 15 + 7 * (51 + 9)) == 16224),
        Blake3ParamSet::Blake3_192f => assert(24 * (1 + 33 * 9 + 22 * (51 + 3)) == 35664),
        Blake3ParamSet::Blake3_256s => assert(32 * (1 + 22 * 15 + 8 * (67 + 8)) == 29792),
        Blake3ParamSet::Blake3_256f => assert(32 * (1 + 35 * 10 + 17 * (67 + 4)) == 49856),
    }
}

} // verus!
