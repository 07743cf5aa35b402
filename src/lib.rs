//! Text rewriting through a remote completion endpoint: the daily quota,
//! credential resolution, settings merge, prompt construction, the provider
//! client's request and reply handling, and the bounded history buffer.
//! Reading and writing the persisted store, the secret store, the environment
//! and the network are left to the caller, which hands in plain values.

pub mod error;
pub mod text;
pub mod prompt;
pub mod llm;
pub mod settings;
pub mod credential;
pub mod quota;
pub mod history;
pub mod commands;
pub mod presets;
