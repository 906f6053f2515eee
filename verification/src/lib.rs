//! Zero-knowledge proof service core for Pedersen commitments to
//! 256-bit transaction identifiers.
//!
//! A transaction identifier is decoded from hex, mapped either to one
//! reduced field element or to four 64-bit little-endian limbs, committed
//! with fresh blinding, and bound into a constraint system whose proof is
//! serialized for wire transfer.  Verification re-commits the supplied
//! commitments under the same transcript domain and checks the proof.

pub mod backend;
pub mod codec;
pub mod commitment;
pub mod demos;
pub mod domain;
pub mod errors;
pub mod plus;
pub mod poseidon;
pub mod protocol;
pub mod service;

pub use errors::ZkpError;
