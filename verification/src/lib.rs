//! Core of the Rutsubo daemon: the wire protocol, the agent loop, the
//! permission gate, the model fallback machine, the tools and the rules of the
//! REST, WebSocket and relay surfaces.
//!
//! Everything here computes on plain values and says in its contract what it
//! computes. Reading, writing, waiting and talking to the network belong to
//! the program that links this library.

pub mod agent;
pub mod api;
pub mod asr;
pub mod auth;
pub mod config;
pub mod error;
pub mod gate;
pub mod json;
pub mod llm;
pub mod outside;
pub mod protocol;
pub mod relay;
pub mod state;
pub mod store;
pub mod text;
pub mod tickets;
pub mod tools;
pub mod ws;
