//! Session orchestration for a small constellation of cooperating processes:
//! a broker, the content server it supervises, and the front ends that attach
//! to it.
//!
//! What is here decides and computes, under machine-checked contracts. The
//! surrounding program performs the I/O (spawning, sockets, files) and feeds
//! the observed results back in as plain values. The few calls into other
//! crates stand behind small functions whose contracts are stated and
//! trusted, each marked as such where it is defined.

pub mod auth;
pub mod buffer;
pub mod frontend;
pub mod handshake;
pub mod launcher;
pub mod path;
pub mod runtime;
pub mod session;
pub mod session_laws;
pub mod style;
pub mod text;
pub mod view;
