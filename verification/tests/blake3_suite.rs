use slh_dsa_blake3::absorb::{
    blake3_xof_into, h_msg_parallel_impl, new_regular_hasher, prf_msg_parallel_impl,
    update_msg_parts_parallel,
    xof_array, COALESCE_CAP, PAR_RAYON_BYTES, TINY_INPUT_BYTES,
};
use slh_dsa_blake3::bytes::{memcpy_concat, total_len, total_msg_len};
use slh_dsa_blake3::params::{
    Blake3ParamSet, Blake3_128f, Blake3_128s, Blake3_192f, Blake3_192s, Blake3_256f, Blake3_256s,
};
use slh_dsa_blake3::suite::Blake3;
use const_oid::db::fips205;

/// The extendable output of `data`, computed with the `blake3` crate alone.
fn reference_xof(data: &[u8], n: usize) -> Vec<u8> {
    let mut h = blake3::Hasher::new();
    h.update(data);
    let mut out = vec![0u8; n];
    h.finalize_xof().fill(&mut out);
    out
}

fn pattern(len: usize, seed: u8) -> Vec<u8> {
    (0..len).map(|i| (i as u8).wrapping_mul(31).wrapping_add(seed)).collect()
}

fn hex(bytes: &[u8]) -> String {
    bytes.iter().map(|b| format!("{:02x}", b)).collect()
}

#[test]
fn memcpy_concat_writes_parts_in_order() {
    let mut dst = [0xAAu8; 16];
    let a: &[u8] = &[1, 2, 3];
    let b: &[u8] = &[];
    let c: &[u8] = &[4, 5];
    let used = memcpy_concat::<16>(&mut dst, &[a, b, c]);
    assert_eq!(used, 5);
    assert_eq!(&dst[..5], &[1, 2, 3, 4, 5]);
    assert!(dst[5..].iter().all(|&x| x == 0xAA));
}

#[test]
fn memcpy_concat_fills_exactly() {
    let mut dst = [0u8; 4];
    let a: &[u8] = &[9, 8];
    let b: &[u8] = &[7, 6];
    assert_eq!(memcpy_concat::<4>(&mut dst, &[a, b]), 4);
    assert_eq!(dst, [9, 8, 7, 6]);
    let mut empty = [3u8; 2];
    assert_eq!(memcpy_concat::<2>(&mut empty, &[]), 0);
    assert_eq!(empty, [3, 3]);
}

#[test]
fn total_len_adds_and_saturates() {
    let a: &[u8] = &[0; 10];
    let b: &[u8] = &[0; 5];
    assert_eq!(total_len(3, &[a, b]), 18);
    assert_eq!(total_len(usize::MAX - 4, &[a, b]), usize::MAX);
    assert_eq!(total_len(7, &[]), 7);
    let g1: &[&[u8]] = &[a];
    let g2: &[&[u8]] = &[b, a];
    assert_eq!(total_msg_len(1, &[g1, g2]), 26);
    assert_eq!(total_msg_len(usize::MAX, &[g1]), usize::MAX);
}

#[test]
fn xof_of_empty_input_matches_known_answer() {
    let out: [u8; 32] = xof_array::<32>(&[]);
    assert_eq!(
        hex(&out),
        "af1349b9f5f9a1a6a0404dea36dcc9499bcb25c9adc112b7cc9a93cae41f3262"
    );
}

#[test]
fn xof_matches_blake3_hash_prefix() {
    let abc: &[u8] = b"abc";
    let out: [u8; 32] = xof_array::<32>(&[abc]);
    assert_eq!(&out, blake3::hash(b"abc").as_bytes());
    let split: [u8; 32] = xof_array::<32>(&[&b"a"[..], &b""[..], &b"bc"[..]]);
    assert_eq!(out, split);
}

#[test]
fn blake3_xof_into_short_and_long_paths_agree_with_reference() {
    for total in [0usize, 1, 100, TINY_INPUT_BYTES, TINY_INPUT_BYTES + 1, 5000] {
        let data = pattern(total, 7);
        let cut1 = total / 3;
        let cut2 = 2 * total / 3;
        let parts: [&[u8]; 3] = [&data[..cut1], &data[cut1..cut2], &data[cut2..]];
        for n in [0usize, 16, 32, 49, 200] {
            let mut out = vec![0x55u8; n];
            blake3_xof_into(&parts, &mut out);
            assert_eq!(out, reference_xof(&data, n), "total {} n {}", total, n);
        }
    }
}

#[test]
fn update_msg_parts_parallel_absorbs_the_concatenation() {
    let big = pattern(PAR_RAYON_BYTES + 17, 1);
    let medium = pattern(COALESCE_CAP / 2 + 3, 2);
    let small = pattern(10, 3);
    let near_cap = pattern(COALESCE_CAP - 1, 4);
    let g1: &[&[u8]] = &[&small, &medium, &medium];
    let g2: &[&[u8]] = &[&big, &small];
    let g3: &[&[u8]] = &[];
    let g4: &[&[u8]] = &[&near_cap, &small, &medium, &big];
    let msg: [&[&[u8]]; 4] = [g1, g2, g3, g4];

    let mut h = blake3::Hasher::new();
    h.update(b"prefix");
    update_msg_parts_parallel(&mut h, &msg);

    let mut flat = b"prefix".to_vec();
    for g in msg.iter() {
        for s in g.iter() {
            flat.extend_from_slice(s);
        }
    }
    assert_eq!(h.finalize(), blake3::hash(&flat));
}

#[test]
fn update_msg_parts_parallel_of_nothing_leaves_hasher_unchanged() {
    let mut h = blake3::Hasher::new();
    h.update(b"abc");
    update_msg_parts_parallel(&mut h, &[]);
    let g: &[&[u8]] = &[];
    update_msg_parts_parallel(&mut h, &[g, g]);
    assert_eq!(h.finalize(), blake3::hash(b"abc"));
}

#[test]
fn prf_msg_impl_fast_and_streaming_paths_match_reference() {
    let sk_prf = pattern(16, 9);
    let opt_rand = pattern(16, 10);
    for msg_len in [0usize, 10, TINY_INPUT_BYTES - 32, TINY_INPUT_BYTES - 31, 70_000] {
        let m = pattern(msg_len, 11);
        let half = msg_len / 2;
        let g1: &[&[u8]] = &[&m[..half]];
        let g2: &[&[u8]] = &[&m[half..]];
        let out: [u8; 16] = prf_msg_parallel_impl::<16>(&sk_prf, &opt_rand, &[g1, g2]);
        let mut flat = sk_prf.clone();
        flat.extend_from_slice(&opt_rand);
        flat.extend_from_slice(&m);
        assert_eq!(out.to_vec(), reference_xof(&flat, 16), "msg_len {}", msg_len);
    }
}

#[test]
fn h_msg_impl_matches_reference() {
    let rand = pattern(24, 1);
    let pk_seed = pattern(24, 2);
    let pk_root = pattern(24, 3);
    for msg_len in [0usize, 300, 400, 300_000] {
        let m = pattern(msg_len, 4);
        let g: &[&[u8]] = &[&m];
        let out: [u8; 39] = h_msg_parallel_impl::<39>(&rand, &pk_seed, &pk_root, &[g]);
        let flat = [rand.clone(), pk_seed.clone(), pk_root.clone(), m.clone()].concat();
        assert_eq!(out.to_vec(), reference_xof(&flat, 39), "msg_len {}", msg_len);
    }
}

#[test]
fn prf_msg_does_not_depend_on_message_framing() {
    let sk_prf = [1u8; 16];
    let opt_rand = [2u8; 16];
    let m = pattern(1000, 5);
    let whole: &[&[u8]] = &[&m];
    let a = Blake3_128s::prf_msg(&sk_prf, &opt_rand, &[whole]);
    let pieces: &[&[u8]] = &[&m[..1], &m[1..600], &m[600..]];
    let b = Blake3_128s::prf_msg(&sk_prf, &opt_rand, &[pieces]);
    let e: &[&[u8]] = &[];
    let g1: &[&[u8]] = &[&m[..500]];
    let g2: &[&[u8]] = &[&m[500..]];
    let c = Blake3_128s::prf_msg(&sk_prf, &opt_rand, &[e, g1, e, g2]);
    assert_eq!(a, b);
    assert_eq!(a, c);
}

#[test]
fn h_msg_output_has_digest_length() {
    let r = [3u8; 32];
    let g: &[&[u8]] = &[b"message"];
    let d: [u8; 49] = Blake3_256f::h_msg(&r, &r, &r, &[g]);
    let flat = [&r[..], &r[..], &r[..], b"message"].concat();
    assert_eq!(d.to_vec(), reference_xof(&flat, 49));
    let d30: [u8; 30] = Blake3_128s::h_msg(&[3u8; 16], &[3u8; 16], &[3u8; 16], &[g]);
    assert_eq!(d30.len(), 30);
}

#[test]
fn t_of_two_blocks_equals_h() {
    let pk_seed = pattern(16, 20);
    let pk_seed: [u8; 16] = pk_seed.try_into().unwrap();
    let adrs = pattern(32, 21);
    let m1: [u8; 16] = pattern(16, 22).try_into().unwrap();
    let m2: [u8; 16] = pattern(16, 23).try_into().unwrap();
    let t = Blake3_128f::t(&pk_seed, &adrs, &[m1, m2]);
    let h = Blake3_128f::h(&pk_seed, &adrs, &m1, &m2);
    assert_eq!(t, h);
    let flat = [&pk_seed[..], &adrs[..], &m1[..], &m2[..]].concat();
    assert_eq!(h.to_vec(), reference_xof(&flat, 16));
}

#[test]
fn t_of_one_block_equals_f() {
    let pk_seed = [7u8; 32];
    let adrs = [8u8; 32];
    let m = [9u8; 32];
    assert_eq!(Blake3_256s::t(&pk_seed, &adrs, &[m]), Blake3_256s::f(&pk_seed, &adrs, &m));
}

#[test]
fn t_of_many_blocks_matches_reference() {
    let pk_seed: [u8; 24] = pattern(24, 1).try_into().unwrap();
    let adrs = pattern(32, 2);
    let blocks: Vec<[u8; 24]> = (0..51u8).map(|i| [i; 24]).collect();
    let out = Blake3_192s::t(&pk_seed, &adrs, &blocks);
    let mut flat = [&pk_seed[..], &adrs[..]].concat();
    for b in blocks.iter() {
        flat.extend_from_slice(b);
    }
    assert_eq!(out.to_vec(), reference_xof(&flat, 24));
    let empty = Blake3_192s::t(&pk_seed, &adrs, &[]);
    assert_eq!(empty.to_vec(), reference_xof(&[&pk_seed[..], &adrs[..]].concat(), 24));
}

#[test]
fn prf_sk_hashes_seed_address_then_secret() {
    let pk_seed = [1u8; 24];
    let sk_seed = [2u8; 24];
    let adrs = pattern(32, 3);
    let prf = Blake3_192f::prf_sk(&pk_seed, &sk_seed, &adrs);
    assert_eq!(prf, Blake3_192f::f(&pk_seed, &adrs, &sk_seed));
    let flat = [&pk_seed[..], &adrs[..], &sk_seed[..]].concat();
    assert_eq!(prf.to_vec(), reference_xof(&flat, 24));
    assert_ne!(prf, Blake3_192f::f(&sk_seed, &adrs, &pk_seed));
}

#[test]
fn suite_types_are_plain_values() {
    let a: Blake3<16, 30> = Blake3 {};
    let b = a;
    assert_eq!(a, b);
    let _ = (Blake3_128s {}, Blake3_192s {}, Blake3_256f {});
}

#[test]
fn parameter_sets_match_their_suites() {
    let sets = [
        (Blake3ParamSet::Blake3_128s, 16, 30, "SLH-DSA-BLAKE3-128s", 26u8),
        (Blake3ParamSet::Blake3_128f, 16, 34, "SLH-DSA-BLAKE3-128f", 27),
        (Blake3ParamSet::Blake3_192s, 24, 39, "SLH-DSA-BLAKE3-192s", 28),
        (Blake3ParamSet::Blake3_192f, 24, 42, "SLH-DSA-BLAKE3-192f", 29),
        (Blake3ParamSet::Blake3_256s, 32, 47, "SLH-DSA-BLAKE3-256s", 30),
        (Blake3ParamSet::Blake3_256f, 32, 49, "SLH-DSA-BLAKE3-256f", 31),
    ];
    for (set, n, m, name, last_arc) in sets {
        let p = set.params();
        assert_eq!(p.n, n);
        assert_eq!(p.m, m);
        assert_eq!(set.name(), name);
        let der = set.algorithm_oid_der();
        assert_eq!(der, vec![0x60, 0x86, 0x48, 0x01, 0x65, 0x03, 0x04, 0x03, last_arc]);
    }
}

#[test]
fn parameter_sets_keep_fips205_relations() {
    for set in [
        Blake3ParamSet::Blake3_128s,
        Blake3ParamSet::Blake3_128f,
        Blake3ParamSet::Blake3_192s,
        Blake3ParamSet::Blake3_192f,
        Blake3ParamSet::Blake3_256s,
        Blake3ParamSet::Blake3_256f,
    ] {
        let p = set.params();
        assert_eq!(p.wots_msg_len, 2 * p.n);
        assert_eq!(p.wots_sig_len, p.wots_msg_len + 3);
        assert_eq!(p.h, p.d * p.h_prime);
        assert_eq!(p.md, (p.k * p.a).div_ceil(8));
        assert_eq!(p.m, p.md + (p.h - p.h_prime).div_ceil(8) + p.h_prime.div_ceil(8));
    }
    let p = Blake3ParamSet::Blake3_256f.params();
    assert_eq!((p.k, p.a, p.md, p.d, p.h_prime, p.h), (35, 9, 40, 17, 4, 68));
}

#[test]
fn oid_bytes_match_const_oid() {
    assert_eq!(
        Blake3ParamSet::Blake3_128s.algorithm_oid_der(),
        fips205::ID_SLH_DSA_SHAKE_128_S.as_bytes()
    );
    assert_eq!(
        Blake3ParamSet::Blake3_256f.algorithm_oid_der(),
        fips205::ID_SLH_DSA_SHAKE_256_F.as_bytes()
    );
    let oid = const_oid::ObjectIdentifier::from_bytes(&Blake3ParamSet::Blake3_192f.algorithm_oid_der()).unwrap();
    assert_eq!(oid.to_string(), "2.16.840.1.101.3.4.3.29");
}

#[test]
fn shorter_outputs_are_prefixes_of_longer_ones() {
    let data = pattern(1000, 40);
    let parts: [&[u8]; 2] = [&data[..300], &data[300..]];
    let mut long = vec![0u8; 200];
    blake3_xof_into(&parts, &mut long);
    for n in [0usize, 1, 31, 32, 33, 64, 65, 199] {
        let mut short = vec![0xffu8; n];
        blake3_xof_into(&parts, &mut short);
        assert_eq!(&short[..], &long[..n], "n {}", n);
    }
    let rand = [5u8; 16];
    let g: &[&[u8]] = &[&data];
    let d30: [u8; 30] = h_msg_parallel_impl::<30>(&rand, &rand, &rand, &[g]);
    let d49: [u8; 49] = h_msg_parallel_impl::<49>(&rand, &rand, &rand, &[g]);
    assert_eq!(&d30[..], &d49[..30]);
}

#[test]
fn suite_types_know_their_parameter_sets() {
    assert_eq!(Blake3_128s::param_set(), Some(Blake3ParamSet::Blake3_128s));
    assert_eq!(Blake3_128f::param_set(), Some(Blake3ParamSet::Blake3_128f));
    assert_eq!(Blake3_192s::param_set(), Some(Blake3ParamSet::Blake3_192s));
    assert_eq!(Blake3_192f::param_set(), Some(Blake3ParamSet::Blake3_192f));
    assert_eq!(Blake3_256s::param_set(), Some(Blake3ParamSet::Blake3_256s));
    assert_eq!(Blake3_256f::param_set(), Some(Blake3ParamSet::Blake3_256f));
    assert_eq!(Blake3::<16, 31>::param_set(), None);
    let p = Blake3_192f::param_set().unwrap().params();
    assert_eq!((p.n, p.m), (24, 42));
    assert_eq!(Blake3_192f::param_set().unwrap().name(), "SLH-DSA-BLAKE3-192f");
}

#[test]
fn message_without_bytes_leaves_fresh_hasher_untouched() {
    let mut h = new_regular_hasher();
    assert_eq!(h.count(), 0);
    let empty: &[u8] = &[];
    let g: &[&[u8]] = &[empty, empty];
    let none: &[&[u8]] = &[];
    update_msg_parts_parallel(&mut h, &[g, none, g]);
    assert_eq!(h.count(), 0);
    assert_eq!(h.finalize(), blake3::Hasher::new().finalize());
    update_msg_parts_parallel(&mut h, &[&[&b"xyz"[..]]]);
    assert_eq!(h.count(), 3);
    assert_eq!(h.finalize(), blake3::hash(b"xyz"));
}
