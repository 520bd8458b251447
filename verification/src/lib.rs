//! Verified core of a pinentry server for GnuPG's gpg-agent.
//!
//! The library holds the decision logic of the pinentry: the Assuan command
//! grammar, the per-session state and its transitions, the dialog key
//! handling, terminal key decoding and the configuration rules. Terminal,
//! keychain and pipe I/O are performed by the caller, which feeds results
//! back into the state machines defined here.

pub mod state;
pub mod text;
pub mod error;
pub mod command;
pub mod server;
pub mod ui;
pub mod config;
pub mod cmd;
pub mod keychain;
