//! Icon acquisition for a desktop launcher: shortcut metadata, cache keys and
//! their fingerprints, pixel conversion and PNG encoding, and the decision
//! logic of the acquisition pipeline.
pub mod text;
pub mod fingerprint;
pub mod pixels;
pub mod data_url;
pub mod shortcut;
pub mod keys;
pub mod acquire;
pub mod extract;
pub mod security;
pub mod monitor;
pub mod uwp;
pub mod backup;
pub mod launch;
