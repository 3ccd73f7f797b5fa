//! Deployment configuration for the duplicate detector.
//!
//! These are plain data carriers: the surrounding application fills them
//! from its configuration file and hands them to the library.  The only
//! rule of this module is the default similarity threshold: how many
//! fingerprint bits may differ before two images stop counting as
//! duplicates.

use vstd::prelude::*;

verus! {

/// Connection settings for the persistent fingerprint store.
pub struct DatabaseSettings {
    pub url: String,
}

/// Credentials for the chat transport.
pub struct TelegramSettings {
    pub token: String,
}

/// Whole deployment configuration.  `similarity_threshold` is the
/// automatic-mode cut-off: a candidate match counts as a duplicate only
/// when its Hamming distance is at most this many bits.
pub struct Config {
    pub database: DatabaseSettings,
    pub telegram: TelegramSettings,
    pub similarity_threshold: u8,
}

/// What the command line asks for: the configuration file to read and
/// the command to run.
pub struct Cli {
    pub config: String,
    pub command: Command,
}

/// The two ways to run: listen for new messages, or bulk-import a
/// conversation's exported history into the corpus.
pub enum Command {
    Run,
    Import { path: String, chat_id: i64 },
}

/// Threshold used when the configuration names none: up to 5 of the 64
/// fingerprint bits may differ.
pub fn default_similarity_threshold() -> (t: u8)
    ensures
        t == 5,
{
    5
}

} // verus!
