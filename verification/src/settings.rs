//! Settings of the server that are plain values.

use vstd::prelude::*;

verus! {

/// Where the server listens.
#[derive(Debug, Clone, PartialEq, Eq, Default)]
pub struct Server {
    pub host: String,
    pub port: String,
}

/// The speech model and how long a pause ends a phrase.
#[derive(Debug, Clone, PartialEq, Eq, Default)]
pub struct Vosk {
    pub model_path: String,
    pub pause_threshold: i64,
}

} // verus!
