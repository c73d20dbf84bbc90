//! A client library for the Gemini API: it builds the requests, reads the
//! answers, reassembles streamed text from raw chunks and polls long-running
//! operations. The library decides and computes; sending, sleeping and
//! printing are left to its caller.

pub mod assembler;
pub mod chat;
pub mod cli;
pub mod client;
pub mod codec;
pub mod driver;
pub mod embed;
pub mod emitter;
pub mod error;
pub mod imagen;
pub mod messages;
pub mod models;
pub mod operation;
pub mod poller;
pub mod requests;
pub mod responses;
pub mod stream;
pub mod text;
pub mod tokens;
pub mod traits;
pub mod tts;
pub mod tui;
pub mod utils;
pub mod vidgen;
pub mod vision;

pub use client::Client;
