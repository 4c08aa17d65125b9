//! Constant-time arithmetic in the prime fields GF(2^64 - 257) and
//! GF(2^127 - 1), with machine-checked contracts.

pub mod bytes;
pub mod carry;
pub mod gf127;
pub mod gfp;
pub mod lucas;
pub mod modpow;
pub mod primes;
pub mod residues;
