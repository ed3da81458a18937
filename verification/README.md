# slh_dsa_blake3

The BLAKE3 hash suite of SLH-DSA (FIPS 205 structure, BLAKE3 in place of
SHAKE), written in Verus.

- `src/outside.rs` — the calls into `blake3` and `const_oid`, with the
  contracts the library assumes of them (a hasher is modelled by the bytes it
  has absorbed, its mode and its input offset; the regular-mode extendable
  output is the named function `blake3_xof`, whose shorter outputs are
  prefixes of longer ones).
- `src/bytes.rs` — concatenation of slice lists, the stack-buffer copy
  `memcpy_concat`, and saturating length sums.
- `src/absorb.rs` — feeding inputs to a hasher (stack buffer, streaming,
  multithreaded for long slices) and reading the extendable output; every
  path is proved to absorb exactly the concatenation of the inputs.
- `src/suite.rs` — `Blake3<N, M>` with `prf_msg`, `h_msg`, `prf_sk`, `t`, `h`
  and `f`, the parameter set of each suite type, and the laws that relate
  them.
- `src/params.rs` — the six parameter sets, proved to keep the FIPS 205
  relations between their numbers.
