//! Identifier generation and the closed error taxonomy for a peer-to-peer
//! content-distribution client.
//!
//! The crate has two independent components: an identifier generator that
//! derives stable host, task and peer identities, and a closed set of error
//! kinds that the surrounding system uses to classify failures.

pub mod decimal;
pub mod error;
pub mod hashing;
pub mod id_generator;
pub mod urls;
