//! Vanity salt search for CREATE2 contract addresses.
//!
//! A factory contract deploys to the address
//! `keccak256(0xff ++ factory ++ salt ++ code_hash)[12..]`. This crate derives
//! that address, scores it by its leading zero hex digits and keeps the
//! bookkeeping of a brute-force search for a salt whose address reaches a
//! wanted score.
//!
//! - [`hexfmt`] and [`keccak`]: hex text and the digest.
//! - [`address`]: the address formula and the score.
//! - [`config`]: the configuration read from text.
//! - [`record`]: trial records and the registry of the qualifying ones.
//! - [`search`]: trials and batches on a state with one owner, where every
//!   trial is counted exactly.
//! - [`shared`]: the same trials on a state that worker threads share.
//! - [`orchestrator`]: the states of a search and its control.
//!
//! Every function is verified with Verus against the contract written on
//! it. The calls into the `hex`, `tiny-keccak` and `rand` crates stand in
//! small functions marked `Trusted:`, whose contracts are believed.

pub mod address;
pub mod config;
pub mod hexfmt;
pub mod keccak;
pub mod orchestrator;
pub mod record;
pub mod search;
pub mod shared;
