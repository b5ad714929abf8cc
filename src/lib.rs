//! A small proof-of-work blockchain: hash-linked blocks, nonce mining against a
//! leading-zero difficulty target, tamper inspection, and validator selection.
pub mod hashing;
pub mod block;
pub mod chain;
pub mod consensus;
