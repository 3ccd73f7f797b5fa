//! Detection of near-duplicate images inside chat conversations.
//!
//! Every image is summarised by a 64-bit perceptual fingerprint; a
//! per-conversation corpus of fingerprints is scanned for the entry at
//! minimum Hamming distance, and a classification policy decides whether
//! an incoming image is new or a duplicate of an earlier message.

pub mod classify;
pub mod config;
pub mod convert;
pub mod corpus;
pub mod distance;
pub mod fingerprint;
pub mod search;
