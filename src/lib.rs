//! Decentralized identity and credential custody.
//!
//! - `did`: custody tiers and the DID derived from a public key and its tier.
//! - `identity`: the identity record, its persisted form, and the tamper check.
//! - `loader`: load-or-create as a state machine whose requests the caller performs.
//! - `custody`: what a tier is asked when signing, and how host answers map to errors.
//! - `hex`: the lowercase hex wire encoding.
//! - `json`: the JSON text of the persisted record.
//! - `error`: the error taxonomy.
pub mod custody;
pub mod did;
pub mod error;
pub mod hex;
pub mod identity;
pub mod json;
pub mod loader;
