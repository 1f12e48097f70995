//! Control-plane client for the `ublk` kernel driver.
//!
//! The crate translates typed device descriptions into the fixed-size binary
//! records that the kernel's command ring consumes, and decodes the binary
//! responses back into typed values.  Everything that computes — the wire
//! codec, the command builder, and the per-session bookkeeping — is verified;
//! the caller supplies the ring transport and hands completion results back.

pub mod control;
pub mod error;
