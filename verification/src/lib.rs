//! Lookup service core: resolve an account identifier to its stored
//! authorization token, and map the outcome to an HTTP-visible reply.
//!
//! The live store round-trip (a parameterized SELECT over a shared
//! connection) is I/O and lives outside this crate; everything that
//! decides — mapping a query outcome to a caller-facing result, the
//! reply each endpoint owes — is here, verified.

pub mod boundary;
pub mod lookup;
pub mod store;
