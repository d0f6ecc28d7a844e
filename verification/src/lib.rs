//! Primality testing for 32-bit unsigned integers, proved against the
//! mathematical definition of a prime number, and the wording of greeting
//! emails for clients.

pub mod email;
pub mod primes;
pub mod sqrt;

pub use primes::is_prime;
pub use sqrt::integer_sqrt;
