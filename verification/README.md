# theta_cgl_rust

Constant-time arithmetic in two prime fields, GF(p) with p = 2^64 - 257
and GF(q) with q = 2^127 - 1, written in Verus: every function states its
result over the integers modulo the field's prime, and Verus proves it.

Layout:

- `src/gfp.rs`, `src/gf127.rs`: the two field element types (`GFp`, `Gf127`)
  with addition, multiplication, inversion, division, Legendre symbol,
  square, fourth and eighth roots, batch inversion and batch square roots,
  and the byte encodings. Each type's view is its value in `0..p-1`
  (resp. `0..q-1`). Public proof functions state the laws that tie the
  operations together (inversion is an inverse, the roots succeed exactly
  on the powers, batch inversion agrees with inversion, decoding and
  encoding are inverse, ...).
- `src/carry.rs`: 64-bit words with carries and borrows, and the masks of
  the branch-free selections.
- `src/bytes.rs`: little-endian byte strings and the integers they denote.
- `src/modpow.rs`: residues and powers, and the running products of a
  batch inversion.
- `src/lucas.rs`, `src/primes.rs`: Lucas's primality criterion, and
  certificates that p and q are prime (with those of the primes the
  certificates rely on).
- `src/residues.rs`: Fermat's little theorem, Euler's criterion and roots
  as powers, for a certified prime.
- `app/`: drawing random field elements from a caller's generator
  (`rand_core`), which reduces the drawn bytes with the verified decoder.
- `tests/`: unit tests of both fields.
